//! Laws of the service, stated over the service's own spec functions and
//! proved once for every table state and every request.

use vstd::prelude::*;

use crate::interfaces::field_given;
use crate::interfaces::spec_msg_not_found;
use crate::json::spec_json_string;
use crate::json::spec_student_json;
use crate::service::HttpRequest;
use crate::service::Route;
use crate::service::spec_body_name;
use crate::service::spec_body_student_id;
use crate::service::spec_route;
use crate::service::spec_service_body;
use crate::service::spec_service_status;
use crate::service::spec_service_table;

verus! {

/// After a valid create-or-update, read-by-key on that key answers 200 with
/// exactly the stored pair.
pub proof fn lemma_create_then_read(
    pre: Map<Seq<char>, Seq<char>>,
    put_req: HttpRequest,
    get_req: HttpRequest,
)
    requires
        spec_route(put_req.method, put_req.path@) == Route::PutStudent,
        spec_route(get_req.method, get_req.path@) == Route::GetStudent,
        field_given(spec_body_student_id(put_req.body)),
        field_given(spec_body_name(put_req.body)),
        get_req.query_student_id.deep_view() == spec_body_student_id(put_req.body),
    ensures
        spec_service_status(spec_service_table(pre, put_req), get_req) == crate::STATUS_OK,
        spec_service_body(spec_service_table(pre, put_req), get_req) == spec_student_json(
            spec_body_student_id(put_req.body)->Some_0,
            spec_body_name(put_req.body)->Some_0,
        ),
{
}

/// A valid create-or-update on an unseen key answers 201, on an existing
/// key 200, and in either case leaves the new name under the key.
pub proof fn lemma_created_or_updated(pre: Map<Seq<char>, Seq<char>>, put_req: HttpRequest)
    requires
        spec_route(put_req.method, put_req.path@) == Route::PutStudent,
        field_given(spec_body_student_id(put_req.body)),
        field_given(spec_body_name(put_req.body)),
    ensures
        !pre.contains_key(spec_body_student_id(put_req.body)->Some_0) ==> spec_service_status(
            pre,
            put_req,
        ) == crate::STATUS_CREATED,
        pre.contains_key(spec_body_student_id(put_req.body)->Some_0) ==> spec_service_status(
            pre,
            put_req,
        ) == crate::STATUS_OK,
        spec_service_table(pre, put_req)[spec_body_student_id(put_req.body)->Some_0]
            == spec_body_name(put_req.body)->Some_0,
{
}

/// Of two create-or-updates on the same key, the later name wins: the
/// second one is an update, and a read afterwards answers the second name.
pub proof fn lemma_last_write_wins(
    pre: Map<Seq<char>, Seq<char>>,
    first_put: HttpRequest,
    second_put: HttpRequest,
    get_req: HttpRequest,
)
    requires
        spec_route(first_put.method, first_put.path@) == Route::PutStudent,
        spec_route(second_put.method, second_put.path@) == Route::PutStudent,
        spec_route(get_req.method, get_req.path@) == Route::GetStudent,
        field_given(spec_body_student_id(first_put.body)),
        field_given(spec_body_name(first_put.body)),
        field_given(spec_body_name(second_put.body)),
        spec_body_student_id(second_put.body) == spec_body_student_id(first_put.body),
        get_req.query_student_id.deep_view() == spec_body_student_id(first_put.body),
    ensures
        spec_service_status(spec_service_table(pre, first_put), second_put) == crate::STATUS_OK,
        spec_service_body(
            spec_service_table(spec_service_table(pre, first_put), second_put),
            get_req,
        ) == spec_student_json(
            spec_body_student_id(second_put.body)->Some_0,
            spec_body_name(second_put.body)->Some_0,
        ),
{
}

/// Delete-by-key answers 404 on an absent key and 200 on a present one, and
/// a read after a delete on that key answers 404.
pub proof fn lemma_delete_then_read(
    pre: Map<Seq<char>, Seq<char>>,
    del_req: HttpRequest,
    get_req: HttpRequest,
)
    requires
        spec_route(del_req.method, del_req.path@) == Route::DeleteStudent,
        spec_route(get_req.method, get_req.path@) == Route::GetStudent,
        field_given(spec_body_student_id(del_req.body)),
        get_req.query_student_id.deep_view() == spec_body_student_id(del_req.body),
    ensures
        !pre.contains_key(spec_body_student_id(del_req.body)->Some_0) ==> spec_service_status(
            pre,
            del_req,
        ) == crate::STATUS_NOT_FOUND,
        pre.contains_key(spec_body_student_id(del_req.body)->Some_0) ==> spec_service_status(
            pre,
            del_req,
        ) == crate::STATUS_OK,
        spec_service_status(spec_service_table(pre, del_req), get_req)
            == crate::STATUS_NOT_FOUND,
        spec_service_body(spec_service_table(pre, del_req), get_req) == spec_json_string(
            spec_msg_not_found(),
        ),
{
}

} // verus!
