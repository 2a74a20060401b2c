//! The request handlers, one per route.
//!
//! Each handler takes the already-deserialized request fields, validates
//! them, invokes the table operation, and produces a response envelope.
//! A missing or empty required field is rejected with 400 before any table
//! work; a read or delete on an absent key answers 404; everything else
//! answers 200, or 201 for a create that inserted a new row.

use vstd::prelude::*;
use vstd::string::StringExecFns;

use crate::app_response::AppResponse;
use crate::store::StudentTable;
use crate::store::ids_unique;
use crate::student::Student;

verus! {

/// The outcome of a handler: a success envelope, or an error envelope with
/// a string message.
pub type AppResult<T> = Result<AppResponse<T>, AppResponse<String>>;

/// Whether a required field arrived and is non-empty.
pub open spec fn field_given(f: Option<Seq<char>>) -> bool {
    f matches Some(s) && s.len() > 0
}

/// The message of every successful mutation.
pub open spec fn spec_msg_success() -> Seq<char> {
    "request succeeded"@
}

/// The message of a read or delete on an absent key.
pub open spec fn spec_msg_not_found() -> Seq<char> {
    "record not found"@
}

/// The message of a request rejected by validation.
pub open spec fn spec_msg_invalid() -> Seq<char> {
    "missing or empty required field"@
}

/// Create-or-update: stores `name` under `student_id`. Answers 201 when a
/// new row was inserted, 200 when an existing row was updated, and 400 when
/// either field is missing or empty (the table is then untouched).
pub fn put_student(table: &mut StudentTable, student_id: Option<String>, name: Option<String>) -> (r:
    AppResult<String>)
    requires
        old(table).wf(),
    ensures
        final(table).wf(),
        field_given(student_id.deep_view()) && field_given(name.deep_view()) ==> ({
            let sid = student_id.deep_view()->Some_0;
            let nm = name.deep_view()->Some_0;
            &&& final(table)@ == old(table)@.insert(sid, nm)
            &&& r matches Ok(resp) && resp.content@ == spec_msg_success() && resp.status_code == (
            if old(table)@.contains_key(sid) {
                crate::STATUS_OK
            } else {
                crate::STATUS_CREATED
            })
        }),
        !(field_given(student_id.deep_view()) && field_given(name.deep_view())) ==> ({
            &&& final(table)@ == old(table)@
            &&& r matches Err(resp) && resp.status_code == crate::STATUS_BAD_REQUEST
                && resp.content@ == spec_msg_invalid()
        }),
{
    match (student_id, name) {
        (Some(sid), Some(nm)) => {
            if sid.as_str().is_empty() || nm.as_str().is_empty() {
                Err(AppResponse::bad_request(String::from_str("missing or empty required field")))
            } else {
                let created = table.upsert(sid, nm);
                let content = String::from_str("request succeeded");
                if created {
                    Ok(AppResponse::new(crate::STATUS_CREATED, content))
                } else {
                    Ok(AppResponse::ok(content))
                }
            }
        },
        _ => Err(AppResponse::bad_request(String::from_str("missing or empty required field"))),
    }
}

/// Read-by-key: answers 200 with the record, 404 when no row carries the
/// key, and 400 when the key is missing or empty.
pub fn get_student(table: &StudentTable, student_id: Option<String>) -> (r: AppResult<Student>)
    requires
        table.wf(),
    ensures
        field_given(student_id.deep_view()) ==> ({
            let sid = student_id.deep_view()->Some_0;
            if table@.contains_key(sid) {
                r matches Ok(resp) && resp.status_code == crate::STATUS_OK
                    && resp.content.student_id@ == sid && resp.content.name@ == table@[sid]
            } else {
                r matches Err(resp) && resp.status_code == crate::STATUS_NOT_FOUND
                    && resp.content@ == spec_msg_not_found()
            }
        }),
        !field_given(student_id.deep_view()) ==> (r matches Err(resp) && resp.status_code
            == crate::STATUS_BAD_REQUEST && resp.content@ == spec_msg_invalid()),
{
    match student_id {
        Some(sid) => {
            if sid.as_str().is_empty() {
                Err(AppResponse::bad_request(String::from_str("missing or empty required field")))
            } else {
                match table.get(sid.as_str()) {
                    Some(record) => Ok(AppResponse::ok(record)),
                    None => Err(AppResponse::new(
                        crate::STATUS_NOT_FOUND,
                        String::from_str("record not found"),
                    )),
                }
            }
        },
        None => Err(AppResponse::bad_request(String::from_str("missing or empty required field"))),
    }
}

/// Delete-by-key: answers 200 when a row was removed, 404 when no row
/// carried the key, and 400 when the key is missing or empty.
pub fn delete_student(table: &mut StudentTable, student_id: Option<String>) -> (r: AppResult<
    String,
>)
    requires
        old(table).wf(),
    ensures
        final(table).wf(),
        field_given(student_id.deep_view()) ==> ({
            let sid = student_id.deep_view()->Some_0;
            &&& final(table)@ == old(table)@.remove(sid)
            &&& r matches Ok(resp) && resp.content@ == (
            if old(table)@.contains_key(sid) {
                spec_msg_success()
            } else {
                spec_msg_not_found()
            }) && resp.status_code == (
            if old(table)@.contains_key(sid) {
                crate::STATUS_OK
            } else {
                crate::STATUS_NOT_FOUND
            })
        }),
        !field_given(student_id.deep_view()) ==> ({
            &&& final(table)@ == old(table)@
            &&& r matches Err(resp) && resp.status_code == crate::STATUS_BAD_REQUEST
                && resp.content@ == spec_msg_invalid()
        }),
{
    match student_id {
        Some(sid) => {
            if sid.as_str().is_empty() {
                Err(AppResponse::bad_request(String::from_str("missing or empty required field")))
            } else {
                let deleted = table.delete(sid.as_str());
                if deleted {
                    Ok(AppResponse::ok(String::from_str("request succeeded")))
                } else {
                    Ok(AppResponse::new(
                        crate::STATUS_NOT_FOUND,
                        String::from_str("record not found"),
                    ))
                }
            }
        },
        None => Err(AppResponse::bad_request(String::from_str("missing or empty required field"))),
    }
}

/// List-all: answers 200 with every record the table holds, and no others,
/// in unspecified order.
pub fn get_student_list(table: &StudentTable) -> (r: AppResult<Vec<Student>>)
    requires
        table.wf(),
    ensures
        r is Ok,
        r matches Ok(resp) ==> ({
            &&& resp.status_code == crate::STATUS_OK
            &&& forall|i: int|
                0 <= i < resp.content@.len() ==> table@.contains_key(
                    (#[trigger] resp.content@[i]).student_id@,
                ) && table@[resp.content@[i].student_id@] == resp.content@[i].name@
            &&& forall|k: Seq<char>|
                table@.contains_key(k) ==> exists|i: int|
                    0 <= i < resp.content@.len() && (#[trigger] resp.content@[i]).student_id@ == k
            &&& ids_unique(resp.content@)
        }),
{
    Ok(AppResponse::ok(table.list()))
}

} // verus!
