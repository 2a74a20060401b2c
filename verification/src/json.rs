//! The JSON wire format of the service.
//!
//! Every response body the service emits is JSON: a quoted string message, a
//! single record object, or an array of record objects. The functions here
//! build those bodies and are proved to produce exactly the sequences that
//! the spec functions describe.

use vstd::prelude::*;
use vstd::string::StrSliceExecFns;
use vstd::string::StringExecFns;

use crate::student::Student;

verus! {

/// Appends one character to a string.
///
/// Relies on std's `String::push`, which appends the given character to the
/// end of the string.
#[verifier::external_body]
pub(crate) fn push_char(s: &mut String, c: char)
    ensures
        final(s)@ == old(s)@ + seq![c],
{
    s.push(c);
}

/// The character for one hexadecimal digit, lower case.
pub open spec fn spec_hex_digit(d: int) -> char {
    if d == 0 {
        '0'
    } else if d == 1 {
        '1'
    } else if d == 2 {
        '2'
    } else if d == 3 {
        '3'
    } else if d == 4 {
        '4'
    } else if d == 5 {
        '5'
    } else if d == 6 {
        '6'
    } else if d == 7 {
        '7'
    } else if d == 8 {
        '8'
    } else if d == 9 {
        '9'
    } else if d == 10 {
        'a'
    } else if d == 11 {
        'b'
    } else if d == 12 {
        'c'
    } else if d == 13 {
        'd'
    } else if d == 14 {
        'e'
    } else {
        'f'
    }
}

/// How one character is written inside a JSON string literal: quotes and
/// backslashes get a backslash escape, the common control characters get
/// their short escapes, the remaining control characters get a `\u00XX`
/// escape, and everything else stands as itself.
pub open spec fn spec_escape_char(c: char) -> Seq<char> {
    if c == '"' {
        seq!['\\', '"']
    } else if c == '\\' {
        seq!['\\', '\\']
    } else if c == '\n' {
        seq!['\\', 'n']
    } else if c == '\r' {
        seq!['\\', 'r']
    } else if c == '\t' {
        seq!['\\', 't']
    } else if (c as u32) < 32 {
        seq!['\\', 'u', '0', '0', spec_hex_digit(c as u32 as int / 16), spec_hex_digit(
            c as u32 as int % 16,
        )]
    } else {
        seq![c]
    }
}

/// The escaped body of a JSON string literal.
pub open spec fn spec_escaped(s: Seq<char>) -> Seq<char>
    decreases s.len(),
{
    if s.len() == 0 {
        Seq::empty()
    } else {
        spec_escaped(s.drop_last()) + spec_escape_char(s.last())
    }
}

/// A complete JSON string literal: the escaped body between double quotes.
pub open spec fn spec_json_string(s: Seq<char>) -> Seq<char> {
    seq!['"'] + spec_escaped(s) + seq!['"']
}

/// The JSON object for one record.
pub open spec fn spec_student_json(id: Seq<char>, name: Seq<char>) -> Seq<char> {
    "{\"student_id\":"@ + spec_json_string(id) + ",\"name\":"@ + spec_json_string(name) + "}"@
}

/// The comma-separated items of the JSON array over a sequence of records.
pub open spec fn spec_student_items(rows: Seq<Student>) -> Seq<char>
    decreases rows.len(),
{
    if rows.len() == 0 {
        Seq::empty()
    } else if rows.len() == 1 {
        spec_student_json(rows[0].student_id@, rows[0].name@)
    } else {
        spec_student_items(rows.drop_last()) + seq![','] + spec_student_json(
            rows.last().student_id@,
            rows.last().name@,
        )
    }
}

/// The JSON array over a sequence of records.
pub open spec fn spec_student_list_json(rows: Seq<Student>) -> Seq<char> {
    seq!['['] + spec_student_items(rows) + seq![']']
}

/// The decimal digits of a number, most significant first, no sign and no
/// leading zero.
pub open spec fn spec_dec_digits(n: nat) -> Seq<char>
    decreases n,
{
    if n < 10 {
        seq![spec_hex_digit(n as int)]
    } else {
        spec_dec_digits(n / 10) + seq![spec_hex_digit(n as int % 10)]
    }
}

/// The character for one hexadecimal digit value.
fn hex_digit(d: u32) -> (c: char)
    requires
        d < 16,
    ensures
        c == spec_hex_digit(d as int),
{
    if d == 0 {
        '0'
    } else if d == 1 {
        '1'
    } else if d == 2 {
        '2'
    } else if d == 3 {
        '3'
    } else if d == 4 {
        '4'
    } else if d == 5 {
        '5'
    } else if d == 6 {
        '6'
    } else if d == 7 {
        '7'
    } else if d == 8 {
        '8'
    } else if d == 9 {
        '9'
    } else if d == 10 {
        'a'
    } else if d == 11 {
        'b'
    } else if d == 12 {
        'c'
    } else if d == 13 {
        'd'
    } else if d == 14 {
        'e'
    } else {
        'f'
    }
}

/// Appends the escape of one character to `out`.
fn push_escaped_char(out: &mut String, c: char)
    ensures
        final(out)@ == old(out)@ + spec_escape_char(c),
{
    if c == '"' {
        push_char(out, '\\');
        push_char(out, '"');
        proof {
            assert(out@ =~= old(out)@ + spec_escape_char(c));
        }
    } else if c == '\\' {
        push_char(out, '\\');
        push_char(out, '\\');
        proof {
            assert(out@ =~= old(out)@ + spec_escape_char(c));
        }
    } else if c == '\n' {
        push_char(out, '\\');
        push_char(out, 'n');
        proof {
            assert(out@ =~= old(out)@ + spec_escape_char(c));
        }
    } else if c == '\r' {
        push_char(out, '\\');
        push_char(out, 'r');
        proof {
            assert(out@ =~= old(out)@ + spec_escape_char(c));
        }
    } else if c == '\t' {
        push_char(out, '\\');
        push_char(out, 't');
        proof {
            assert(out@ =~= old(out)@ + spec_escape_char(c));
        }
    } else if (c as u32) < 32 {
        let v = c as u32;
        push_char(out, '\\');
        push_char(out, 'u');
        push_char(out, '0');
        push_char(out, '0');
        push_char(out, hex_digit(v / 16));
        push_char(out, hex_digit(v % 16));
        proof {
            assert(out@ =~= old(out)@ + spec_escape_char(c));
        }
    } else {
        push_char(out, c);
        proof {
            assert(out@ =~= old(out)@ + spec_escape_char(c));
        }
    }
}

/// Appends the escaped body of `s` to `out`.
fn push_escaped(out: &mut String, s: &str)
    ensures
        final(out)@ == old(out)@ + spec_escaped(s@),
{
    let n = s.unicode_len();
    let mut i: usize = 0;
    while i < n
        invariant
            n == s@.len(),
            i <= n,
            out@ == old(out)@ + spec_escaped(s@.subrange(0, i as int)),
        decreases n - i,
    {
        let c = s.get_char(i);
        push_escaped_char(out, c);
        proof {
            let pre = s@.subrange(0, i as int);
            let post = s@.subrange(0, i + 1);
            assert(post.drop_last() =~= pre);
            assert(post.last() == c);
            assert(out@ =~= old(out)@ + spec_escaped(post));
        }
        i = i + 1;
    }
    proof {
        assert(s@.subrange(0, n as int) =~= s@);
    }
}

/// The JSON string literal for `s`: quotes around the escaped body.
pub fn json_string(s: &str) -> (out: String)
    ensures
        out@ == spec_json_string(s@),
{
    let mut out = String::new();
    push_char(&mut out, '"');
    push_escaped(&mut out, s);
    push_char(&mut out, '"');
    proof {
        assert(out@ =~= spec_json_string(s@));
    }
    out
}

/// The JSON object for one record.
pub fn student_json(s: &Student) -> (out: String)
    ensures
        out@ == spec_student_json(s.student_id@, s.name@),
{
    let mut out = String::from_str("{\"student_id\":");
    let id_lit = json_string(s.student_id.as_str());
    out.append(id_lit.as_str());
    out.append(",\"name\":");
    let name_lit = json_string(s.name.as_str());
    out.append(name_lit.as_str());
    out.append("}");
    proof {
        assert(out@ =~= spec_student_json(s.student_id@, s.name@));
    }
    out
}

/// The JSON array over a vector of records.
pub fn student_list_json(rows: &Vec<Student>) -> (out: String)
    ensures
        out@ == spec_student_list_json(rows@),
{
    let mut out = String::new();
    push_char(&mut out, '[');
    let n = rows.len();
    let mut i: usize = 0;
    while i < n
        invariant
            n == rows@.len(),
            i <= n,
            out@ == seq!['['] + spec_student_items(rows@.subrange(0, i as int)),
        decreases n - i,
    {
        if i > 0 {
            push_char(&mut out, ',');
        }
        let item = student_json(&rows[i]);
        out.append(item.as_str());
        proof {
            let pre = rows@.subrange(0, i as int);
            let post = rows@.subrange(0, i + 1);
            assert(post.drop_last() =~= pre);
            assert(post.last() == rows@[i as int]);
            assert(out@ =~= seq!['['] + spec_student_items(post));
        }
        i = i + 1;
    }
    push_char(&mut out, ']');
    proof {
        assert(rows@.subrange(0, n as int) =~= rows@);
        assert(out@ =~= spec_student_list_json(rows@));
    }
    out
}

/// The decimal rendering of a 16-bit number.
pub fn dec_string(n: u16) -> (out: String)
    ensures
        out@ == spec_dec_digits(n as nat),
    decreases n,
{
    if n < 10 {
        let mut out = String::new();
        push_char(&mut out, hex_digit(n as u32));
        proof {
            assert(out@ =~= spec_dec_digits(n as nat));
        }
        out
    } else {
        proof {
            assert(n / 10 < n) by (nonlinear_arith)
                requires
                    n >= 10,
            ;
        }
        let mut out = dec_string(n / 10);
        push_char(&mut out, hex_digit((n % 10) as u32));
        proof {
            assert(out@ =~= spec_dec_digits(n as nat));
        }
        out
    }
}

} // verus!
