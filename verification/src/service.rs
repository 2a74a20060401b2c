//! The router and the assembled service.
//!
//! `app_service` is the whole request pipeline as one function: it routes
//! the request, runs the matching handler against the table, renders the
//! envelope's content as JSON, and finishes with the fallback middleware,
//! so that every response — a routing miss included — leaves with a status
//! and a JSON body.

use vstd::prelude::*;

use crate::default_handler::HttpResponse;
use crate::default_handler::default_response_middleware;
use crate::interfaces::delete_student;
use crate::interfaces::field_given;
use crate::interfaces::get_student;
use crate::interfaces::get_student_list;
use crate::interfaces::put_student;
use crate::interfaces::spec_msg_invalid;
use crate::interfaces::spec_msg_not_found;
use crate::interfaces::spec_msg_success;
use crate::json::json_string;
use crate::json::spec_json_string;
use crate::json::spec_student_json;
use crate::json::spec_student_list_json;
use crate::json::student_json;
use crate::json::student_list_json;
use crate::store::StudentTable;
use crate::store::ids_unique;
use crate::store::str_eq;
use crate::student::Student;

verus! {

/// The request methods the router distinguishes.
pub enum Method {
    Get,
    Put,
    Delete,
    Post,
}

/// The deserialized request body: the framework hands the handlers the two
/// optional fields, or reports that the body was not valid JSON.
pub enum RequestBody {
    Malformed,
    Fields { student_id: Option<String>, name: Option<String> },
}

/// A request as the service sees it after the transport layer has read it:
/// method, path, the `student_id` query parameter if one was given, and the
/// deserialized body.
pub struct HttpRequest {
    pub method: Method,
    pub path: String,
    pub query_student_id: Option<String>,
    pub body: RequestBody,
}

/// The routes of the service.
pub enum Route {
    GetStudent,
    PutStudent,
    DeleteStudent,
    GetStudentList,
    NoMatch,
}

/// Which route a method and path select.
pub open spec fn spec_route(m: Method, path: Seq<char>) -> Route {
    if path == "/student"@ {
        match m {
            Method::Get => Route::GetStudent,
            Method::Put => Route::PutStudent,
            Method::Delete => Route::DeleteStudent,
            _ => Route::NoMatch,
        }
    } else if path == "/student/list"@ {
        match m {
            Method::Get => Route::GetStudentList,
            _ => Route::NoMatch,
        }
    } else {
        Route::NoMatch
    }
}

/// Routes a request line to a handler, or to no match.
pub fn route(m: &Method, path: &str) -> (r: Route)
    ensures
        r == spec_route(*m, path@),
{
    if str_eq(path, "/student") {
        match m {
            Method::Get => Route::GetStudent,
            Method::Put => Route::PutStudent,
            Method::Delete => Route::DeleteStudent,
            _ => Route::NoMatch,
        }
    } else if str_eq(path, "/student/list") {
        match m {
            Method::Get => Route::GetStudentList,
            _ => Route::NoMatch,
        }
    } else {
        Route::NoMatch
    }
}

/// The body fields of a request, as the handlers receive them.
pub open spec fn spec_body_student_id(b: RequestBody) -> Option<Seq<char>> {
    match b {
        RequestBody::Fields { student_id, .. } => student_id.deep_view(),
        RequestBody::Malformed => None,
    }
}

/// The `name` body field of a request.
pub open spec fn spec_body_name(b: RequestBody) -> Option<Seq<char>> {
    match b {
        RequestBody::Fields { name, .. } => name.deep_view(),
        RequestBody::Malformed => None,
    }
}

/// The table contents after the service has handled a request.
pub open spec fn spec_service_table(pre: Map<Seq<char>, Seq<char>>, req: HttpRequest) -> Map<
    Seq<char>,
    Seq<char>,
> {
    match spec_route(req.method, req.path@) {
        Route::PutStudent => {
            let sid = spec_body_student_id(req.body);
            let nm = spec_body_name(req.body);
            if field_given(sid) && field_given(nm) {
                pre.insert(sid->Some_0, nm->Some_0)
            } else {
                pre
            }
        },
        Route::DeleteStudent => {
            let sid = spec_body_student_id(req.body);
            if field_given(sid) {
                pre.remove(sid->Some_0)
            } else {
                pre
            }
        },
        _ => pre,
    }
}

/// The status the service answers a request with.
pub open spec fn spec_service_status(pre: Map<Seq<char>, Seq<char>>, req: HttpRequest) -> u16 {
    match spec_route(req.method, req.path@) {
        Route::GetStudent => {
            let sid = req.query_student_id.deep_view();
            if !field_given(sid) {
                crate::STATUS_BAD_REQUEST
            } else if pre.contains_key(sid->Some_0) {
                crate::STATUS_OK
            } else {
                crate::STATUS_NOT_FOUND
            }
        },
        Route::PutStudent => {
            let sid = spec_body_student_id(req.body);
            let nm = spec_body_name(req.body);
            if !(field_given(sid) && field_given(nm)) {
                crate::STATUS_BAD_REQUEST
            } else if pre.contains_key(sid->Some_0) {
                crate::STATUS_OK
            } else {
                crate::STATUS_CREATED
            }
        },
        Route::DeleteStudent => {
            let sid = spec_body_student_id(req.body);
            if !field_given(sid) {
                crate::STATUS_BAD_REQUEST
            } else if pre.contains_key(sid->Some_0) {
                crate::STATUS_OK
            } else {
                crate::STATUS_NOT_FOUND
            }
        },
        Route::GetStudentList => crate::STATUS_OK,
        Route::NoMatch => crate::STATUS_NOT_FOUND,
    }
}

/// The response body the service answers with, for every route except
/// list-all, whose body depends on the unspecified order of the records.
pub open spec fn spec_service_body(pre: Map<Seq<char>, Seq<char>>, req: HttpRequest) -> Seq<char> {
    match spec_route(req.method, req.path@) {
        Route::GetStudent => {
            let sid = req.query_student_id.deep_view();
            if !field_given(sid) {
                spec_json_string(spec_msg_invalid())
            } else if pre.contains_key(sid->Some_0) {
                spec_student_json(sid->Some_0, pre[sid->Some_0])
            } else {
                spec_json_string(spec_msg_not_found())
            }
        },
        Route::PutStudent => {
            let sid = spec_body_student_id(req.body);
            let nm = spec_body_name(req.body);
            if !(field_given(sid) && field_given(nm)) {
                spec_json_string(spec_msg_invalid())
            } else {
                spec_json_string(spec_msg_success())
            }
        },
        Route::DeleteStudent => {
            let sid = spec_body_student_id(req.body);
            if !field_given(sid) {
                spec_json_string(spec_msg_invalid())
            } else if pre.contains_key(sid->Some_0) {
                spec_json_string(spec_msg_success())
            } else {
                spec_json_string(spec_msg_not_found())
            }
        },
        Route::GetStudentList => Seq::empty(),
        Route::NoMatch => spec_json_string("Not Found"@),
    }
}

/// Whether a record sequence holds exactly the bindings of a map: every
/// record stands in the map, every key of the map appears, and no key twice.
pub open spec fn rows_match(m: Map<Seq<char>, Seq<char>>, rows: Seq<Student>) -> bool {
    &&& forall|i: int|
        0 <= i < rows.len() ==> m.contains_key((#[trigger] rows[i]).student_id@)
            && m[rows[i].student_id@] == rows[i].name@
    &&& forall|k: Seq<char>|
        m.contains_key(k) ==> exists|i: int|
            0 <= i < rows.len() && (#[trigger] rows[i]).student_id@ == k
    &&& ids_unique(rows)
}

/// The assembled service: routing, the matching handler, JSON rendering,
/// and the fallback middleware, as one request-to-response step.
pub fn app_service(table: &mut StudentTable, req: HttpRequest) -> (res: HttpResponse)
    requires
        old(table).wf(),
    ensures
        final(table).wf(),
        final(table)@ == spec_service_table(old(table)@, req),
        res.status_code == Some(spec_service_status(old(table)@, req)),
        res.body@.len() > 0,
        spec_route(req.method, req.path@) != Route::GetStudentList ==> res.body@
            == spec_service_body(old(table)@, req),
        spec_route(req.method, req.path@) == Route::GetStudentList ==> exists|rows: Seq<Student>|
            res.body@ == spec_student_list_json(rows) && #[trigger] rows_match(old(table)@, rows),
{
    let routed = route(&req.method, req.path.as_str());
    let mut res = match routed {
        Route::GetStudent => {
            match get_student(table, req.query_student_id) {
                Ok(resp) => HttpResponse {
                    status_code: Some(resp.status_code),
                    body: student_json(&resp.content),
                },
                Err(resp) => HttpResponse {
                    status_code: Some(resp.status_code),
                    body: json_string(resp.content.as_str()),
                },
            }
        },
        Route::PutStudent => {
            let (student_id, name) = match req.body {
                RequestBody::Fields { student_id, name } => (student_id, name),
                RequestBody::Malformed => (None, None),
            };
            match put_student(table, student_id, name) {
                Ok(resp) => HttpResponse {
                    status_code: Some(resp.status_code),
                    body: json_string(resp.content.as_str()),
                },
                Err(resp) => HttpResponse {
                    status_code: Some(resp.status_code),
                    body: json_string(resp.content.as_str()),
                },
            }
        },
        Route::DeleteStudent => {
            let student_id = match req.body {
                RequestBody::Fields { student_id, .. } => student_id,
                RequestBody::Malformed => None,
            };
            match delete_student(table, student_id) {
                Ok(resp) => HttpResponse {
                    status_code: Some(resp.status_code),
                    body: json_string(resp.content.as_str()),
                },
                Err(resp) => HttpResponse {
                    status_code: Some(resp.status_code),
                    body: json_string(resp.content.as_str()),
                },
            }
        },
        Route::GetStudentList => {
            match get_student_list(table) {
                Ok(resp) => {
                    let body = student_list_json(&resp.content);
                    proof {
                        assert(rows_match(table@, resp.content@));
                    }
                    HttpResponse { status_code: Some(resp.status_code), body }
                },
                Err(resp) => HttpResponse {
                    status_code: Some(resp.status_code),
                    body: json_string(resp.content.as_str()),
                },
            }
        },
        Route::NoMatch => HttpResponse {
            status_code: Some(crate::STATUS_NOT_FOUND),
            body: String::new(),
        },
    };
    default_response_middleware(&mut res);
    res
}

} // verus!
