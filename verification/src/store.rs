//! The student table: an in-memory model of the backing relational table.
//!
//! The table keeps one row per `student_id` — the uniqueness constraint of
//! the schema — and denotes a map from `student_id` to `name`. The four
//! repository operations (create-or-update, read-by-key, list-all,
//! delete-by-key) are specified against that map.

use vstd::prelude::*;

use crate::student::Student;

verus! {

/// No two rows share a `student_id`: the uniqueness constraint of the table.
pub open spec fn ids_unique(rows: Seq<Student>) -> bool {
    forall|i: int, j: int|
        0 <= i < j < rows.len() ==> (#[trigger] rows[i]).student_id@ != (
        #[trigger] rows[j]).student_id@
}

/// Every row holds a valid record.
pub open spec fn rows_valid(rows: Seq<Student>) -> bool {
    forall|i: int| 0 <= i < rows.len() ==> (#[trigger] rows[i]).valid()
}

/// The map a row sequence denotes: each `student_id` to its `name`.
pub open spec fn rows_map(rows: Seq<Student>) -> Map<Seq<char>, Seq<char>>
    decreases rows.len(),
{
    if rows.len() == 0 {
        Map::empty()
    } else {
        rows_map(rows.drop_last()).insert(rows.last().student_id@, rows.last().name@)
    }
}

/// A key is in the denoted map exactly when some row carries it.
proof fn lemma_rows_map_has_key(rows: Seq<Student>, k: Seq<char>)
    ensures
        rows_map(rows).contains_key(k) <==> exists|i: int|
            0 <= i < rows.len() && (#[trigger] rows[i]).student_id@ == k,
    decreases rows.len(),
{
    if rows.len() > 0 {
        let sub = rows.drop_last();
        lemma_rows_map_has_key(sub, k);
        let last = rows.last();
        if rows_map(rows).contains_key(k) {
            if last.student_id@ == k {
                assert(rows[rows.len() - 1].student_id@ == k);
            } else {
                let i = choose|i: int| 0 <= i < sub.len() && (#[trigger] sub[i]).student_id@ == k;
                assert(rows[i].student_id@ == k);
            }
        }
        if exists|i: int| 0 <= i < rows.len() && (#[trigger] rows[i]).student_id@ == k {
            let i = choose|i: int| 0 <= i < rows.len() && (#[trigger] rows[i]).student_id@ == k;
            if i < rows.len() - 1 {
                assert(sub[i].student_id@ == k);
            }
        }
    }
}

/// Under uniqueness, the denoted map sends each row's id to that row's name.
proof fn lemma_rows_map_at(rows: Seq<Student>, i: int)
    requires
        ids_unique(rows),
        0 <= i < rows.len(),
    ensures
        rows_map(rows).contains_key(rows[i].student_id@),
        rows_map(rows)[rows[i].student_id@] == rows[i].name@,
    decreases rows.len(),
{
    let sub = rows.drop_last();
    if i == rows.len() - 1 {
    } else {
        assert(ids_unique(sub)) by {
            assert(forall|a: int, b: int|
                0 <= a < b < sub.len() ==> (#[trigger] sub[a]).student_id@ != (
                #[trigger] sub[b]).student_id@) by {
                assert(forall|a: int| 0 <= a < sub.len() ==> sub[a] == rows[a]);
            }
        }
        lemma_rows_map_at(sub, i);
        assert(rows.last().student_id@ != rows[i].student_id@);
    }
}

/// Appending a fresh row extends the denoted map by that binding.
proof fn lemma_rows_map_push(rows: Seq<Student>, s: Student)
    ensures
        rows_map(rows.push(s)) == rows_map(rows).insert(s.student_id@, s.name@),
{
    let grown = rows.push(s);
    assert(grown.drop_last() =~= rows);
    assert(grown.last() == s);
}

/// Removing the one row that carries a key removes that key's binding.
proof fn lemma_rows_map_remove(rows: Seq<Student>, i: int)
    requires
        ids_unique(rows),
        0 <= i < rows.len(),
    ensures
        rows_map(rows.remove(i)) == rows_map(rows).remove(rows[i].student_id@),
        ids_unique(rows.remove(i)),
    decreases rows.len(),
{
    let k = rows[i].student_id@;
    let sub = rows.drop_last();
    let shrunk = rows.remove(i);
    rows.remove_ensures(i);
    assert(ids_unique(shrunk)) by {
        assert(forall|a: int, b: int|
            0 <= a < b < shrunk.len() ==> (#[trigger] shrunk[a]).student_id@ != (
            #[trigger] shrunk[b]).student_id@) by {
            assert(forall|a: int| 0 <= a < i ==> shrunk[a] == rows[a]);
            assert(forall|a: int| i <= a < shrunk.len() ==> shrunk[a] == rows[a + 1]);
        }
    }
    if i == rows.len() - 1 {
        assert(shrunk =~= sub);
        assert(!rows_map(sub).contains_key(k)) by {
            lemma_rows_map_has_key(sub, k);
            assert(forall|a: int| 0 <= a < sub.len() ==> sub[a] == rows[a]);
        }
        assert(rows_map(shrunk) =~= rows_map(rows).remove(k));
    } else {
        assert(ids_unique(sub)) by {
            assert(forall|a: int| 0 <= a < sub.len() ==> sub[a] == rows[a]);
        }
        lemma_rows_map_remove(sub, i);
        assert(sub[i] == rows[i]);
        assert(shrunk.drop_last() =~= sub.remove(i)) by {
            sub.remove_ensures(i);
            assert(forall|a: int| 0 <= a < i ==> shrunk[a] == rows[a] && sub.remove(i)[a] == rows[a]);
            assert(forall|a: int|
                i <= a < sub.remove(i).len() ==> shrunk[a] == rows[a + 1] && sub.remove(i)[a]
                    == rows[a + 1]);
        }
        assert(shrunk.last() == rows.last());
        assert(rows.last().student_id@ != k);
        assert(rows_map(shrunk) == rows_map(sub).remove(k).insert(
            rows.last().student_id@,
            rows.last().name@,
        ));
        assert(rows_map(sub).remove(k).insert(rows.last().student_id@, rows.last().name@)
            =~= rows_map(sub).insert(rows.last().student_id@, rows.last().name@).remove(k));
    }
}

/// The student table. The backing store of the service holds the same rows
/// in a relational table; this type models it as a vector of records with
/// the schema's uniqueness constraint as its invariant.
pub struct StudentTable {
    rows: Vec<Student>,
}

impl View for StudentTable {
    type V = Map<Seq<char>, Seq<char>>;

    closed spec fn view(&self) -> Map<Seq<char>, Seq<char>> {
        rows_map(self.rows@)
    }
}

impl StudentTable {
    /// The table invariant: ids are unique and every stored record is valid.
    pub closed spec fn wf(&self) -> bool {
        ids_unique(self.rows@) && rows_valid(self.rows@)
    }

    /// An empty table, as the schema initializer leaves it on first creation.
    pub fn new() -> (t: StudentTable)
        ensures
            t.wf(),
            t@ == Map::<Seq<char>, Seq<char>>::empty(),
    {
        StudentTable { rows: Vec::new() }
    }

    /// The index of the row that carries `student_id`, if any.
    fn find_index(&self, student_id: &str) -> (r: Option<usize>)
        ensures
            match r {
                Some(i) => i < self.rows@.len() && self.rows@[i as int].student_id@ == student_id@,
                None => forall|i: int|
                    0 <= i < self.rows@.len() ==> (#[trigger] self.rows@[i]).student_id@
                        != student_id@,
            },
    {
        let n = self.rows.len();
        let mut i: usize = 0;
        while i < n
            invariant
                n == self.rows@.len(),
                i <= n,
                forall|j: int|
                    0 <= j < i ==> (#[trigger] self.rows@[j]).student_id@ != student_id@,
            decreases n - i,
        {
            if str_eq(self.rows[i].student_id.as_str(), student_id) {
                return Some(i);
            }
            i = i + 1;
        }
        None
    }

    /// Read-by-key: the record under `student_id`, or nothing.
    pub fn get(&self, student_id: &str) -> (r: Option<Student>)
        requires
            self.wf(),
        ensures
            match r {
                Some(s) => self@.contains_key(student_id@) && s.student_id@ == student_id@
                    && s.name@ == self@[student_id@],
                None => !self@.contains_key(student_id@),
            },
    {
        proof {
            lemma_rows_map_has_key(self.rows@, student_id@);
        }
        match self.find_index(student_id) {
            Some(i) => {
                proof {
                    lemma_rows_map_at(self.rows@, i as int);
                }
                Some(self.rows[i].duplicate())
            },
            None => None,
        }
    }

    /// Create-or-update: after the call the table holds `name` under
    /// `student_id`; reports whether a new row was inserted.
    pub fn upsert(&mut self, student_id: String, name: String) -> (created: bool)
        requires
            old(self).wf(),
            student_id@.len() > 0,
            name@.len() > 0,
        ensures
            final(self).wf(),
            final(self)@ == old(self)@.insert(student_id@, name@),
            created == !old(self)@.contains_key(student_id@),
    {
        proof {
            lemma_rows_map_has_key(self.rows@, student_id@);
        }
        let found = self.find_index(student_id.as_str());
        let created = match found {
            Some(i) => {
                proof {
                    lemma_rows_map_remove(self.rows@, i as int);
                }
                let ghost pre = self.rows@;
                self.rows.remove(i);
                proof {
                    assert(rows_valid(self.rows@)) by {
                        pre.remove_ensures(i as int);
                        assert(forall|a: int| 0 <= a < i ==> self.rows@[a] == pre[a]);
                        assert(forall|a: int|
                            i <= a < self.rows@.len() ==> self.rows@[a] == pre[a + 1]);
                    }
                    lemma_rows_map_has_key(self.rows@, student_id@);
                }
                false
            },
            None => true,
        };
        let ghost mid = self.rows@;
        self.rows.push(Student::new(student_id, name));
        proof {
            lemma_rows_map_push(mid, self.rows@.last());
            assert(forall|a: int|
                0 <= a < mid.len() ==> (#[trigger] mid[a]).student_id@ != self.rows@.last().student_id@) by {
                lemma_rows_map_has_key(mid, self.rows@.last().student_id@);
            }
            assert(ids_unique(self.rows@)) by {
                assert(forall|a: int| 0 <= a < mid.len() ==> self.rows@[a] == mid[a]);
            }
            assert(rows_valid(self.rows@)) by {
                assert(forall|a: int| 0 <= a < mid.len() ==> self.rows@[a] == mid[a]);
            }
            if found is Some {
                assert(self@ =~= old(self)@.insert(self.rows@.last().student_id@, self.rows@.last().name@));
            }
        }
        created
    }

    /// Delete-by-key: removes the row under `student_id` if present; reports
    /// whether a row was affected.
    pub fn delete(&mut self, student_id: &str) -> (deleted: bool)
        requires
            old(self).wf(),
        ensures
            final(self).wf(),
            final(self)@ == old(self)@.remove(student_id@),
            deleted == old(self)@.contains_key(student_id@),
    {
        proof {
            lemma_rows_map_has_key(self.rows@, student_id@);
        }
        match self.find_index(student_id) {
            Some(i) => {
                proof {
                    lemma_rows_map_remove(self.rows@, i as int);
                }
                let ghost pre = self.rows@;
                self.rows.remove(i);
                proof {
                    assert(rows_valid(self.rows@)) by {
                        pre.remove_ensures(i as int);
                        assert(forall|a: int| 0 <= a < i ==> self.rows@[a] == pre[a]);
                        assert(forall|a: int|
                            i <= a < self.rows@.len() ==> self.rows@[a] == pre[a + 1]);
                    }
                }
                true
            },
            None => {
                proof {
                    assert(self@ =~= old(self)@.remove(student_id@));
                }
                false
            },
        }
    }

    /// List-all: every record the table holds, and no others.
    pub fn list(&self) -> (r: Vec<Student>)
        requires
            self.wf(),
        ensures
            forall|i: int|
                0 <= i < r@.len() ==> self@.contains_key((#[trigger] r@[i]).student_id@)
                    && self@[r@[i].student_id@] == r@[i].name@,
            forall|k: Seq<char>|
                self@.contains_key(k) ==> exists|i: int|
                    0 <= i < r@.len() && (#[trigger] r@[i]).student_id@ == k,
            ids_unique(r@),
    {
        let n = self.rows.len();
        let mut r: Vec<Student> = Vec::new();
        let mut i: usize = 0;
        while i < n
            invariant
                n == self.rows@.len(),
                i <= n,
                r@.len() == i,
                forall|j: int|
                    0 <= j < i ==> (#[trigger] r@[j]).student_id@ == self.rows@[j].student_id@
                        && r@[j].name@ == self.rows@[j].name@,
            decreases n - i,
        {
            r.push(self.rows[i].duplicate());
            i = i + 1;
        }
        proof {
            assert forall|i: int| 0 <= i < r@.len() implies self@.contains_key(
                (#[trigger] r@[i]).student_id@,
            ) && self@[r@[i].student_id@] == r@[i].name@ by {
                lemma_rows_map_at(self.rows@, i);
            }
            assert forall|k: Seq<char>| self@.contains_key(k) implies exists|i: int|
                0 <= i < r@.len() && (#[trigger] r@[i]).student_id@ == k by {
                lemma_rows_map_has_key(self.rows@, k);
                let i = choose|i: int|
                    0 <= i < self.rows@.len() && (#[trigger] self.rows@[i]).student_id@ == k;
                assert(r@[i].student_id@ == k);
            }
        }
        r
    }
}

/// Whether two borrowed strings hold the same characters.
///
/// Relies on std's `str` equality, which compares the contents of the two
/// strings.
#[verifier::external_body]
pub(crate) fn str_eq(a: &str, b: &str) -> (r: bool)
    ensures
        r == (a@ == b@),
{
    a == b
}

} // verus!
