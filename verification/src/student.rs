//! The student record: the one entity the service stores.

use vstd::prelude::*;

verus! {

/// A student record as it travels through the service: an external key and a
/// display name. The internal auto-increment row id of the backing table is
/// never exposed, so it does not appear here.
pub struct Student {
    pub student_id: String,
    pub name: String,
}

impl Student {
    /// A record is valid when both fields are non-empty; validation rejects
    /// anything else before it reaches the table.
    pub open spec fn valid(&self) -> bool {
        self.student_id@.len() > 0 && self.name@.len() > 0
    }

    /// Build a record from its two fields.
    pub fn new(student_id: String, name: String) -> (r: Student)
        ensures
            r.student_id@ == student_id@,
            r.name@ == name@,
    {
        Student { student_id, name }
    }

    /// An owned copy of the record.
    pub fn duplicate(&self) -> (r: Student)
        ensures
            r.student_id@ == self.student_id@,
            r.name@ == self.name@,
    {
        Student { student_id: self.student_id.clone(), name: self.name.clone() }
    }
}

} // verus!
