//! Concrete scenarios and exact expected values: the full create, read,
//! update, delete round trip; validation rejections; the JSON wire format;
//! and the fallback middleware's synthesized bodies.

use student_api::app_response::error_response;
use student_api::default_handler::default_response_middleware;
use student_api::default_handler::HttpResponse;
use student_api::json::dec_string;
use student_api::json::json_string;
use student_api::json::student_json;
use student_api::service::app_service;
use student_api::service::HttpRequest;
use student_api::service::Method;
use student_api::service::RequestBody;
use student_api::store::StudentTable;
use student_api::student::Student;

fn request(
    method: Method,
    path: &str,
    query_student_id: Option<&str>,
    body: RequestBody,
) -> HttpRequest {
    HttpRequest {
        method,
        path: path.to_string(),
        query_student_id: query_student_id.map(|s| s.to_string()),
        body,
    }
}

fn fields(student_id: Option<&str>, name: Option<&str>) -> RequestBody {
    RequestBody::Fields {
        student_id: student_id.map(|s| s.to_string()),
        name: name.map(|s| s.to_string()),
    }
}

fn put(table: &mut StudentTable, student_id: &str, name: &str) -> HttpResponse {
    app_service(table, request(Method::Put, "/student", None, fields(Some(student_id), Some(name))))
}

fn get(table: &mut StudentTable, student_id: &str) -> HttpResponse {
    app_service(table, request(Method::Get, "/student", Some(student_id), fields(None, None)))
}

fn delete(table: &mut StudentTable, student_id: &str) -> HttpResponse {
    app_service(table, request(Method::Delete, "/student", None, fields(Some(student_id), None)))
}

fn list(table: &mut StudentTable) -> HttpResponse {
    app_service(table, request(Method::Get, "/student/list", None, fields(None, None)))
}

#[test]
fn full_round_trip_on_empty_table() {
    let mut table = StudentTable::new();

    let res = put(&mut table, "42", "Alice");
    assert_eq!(res.status_code, Some(201));
    assert_eq!(res.body, "\"request succeeded\"");

    let res = get(&mut table, "42");
    assert_eq!(res.status_code, Some(200));
    assert_eq!(res.body, "{\"student_id\":\"42\",\"name\":\"Alice\"}");

    let res = put(&mut table, "42", "Bob");
    assert_eq!(res.status_code, Some(200));
    assert_eq!(res.body, "\"request succeeded\"");

    let res = get(&mut table, "42");
    assert_eq!(res.status_code, Some(200));
    assert_eq!(res.body, "{\"student_id\":\"42\",\"name\":\"Bob\"}");

    let res = delete(&mut table, "42");
    assert_eq!(res.status_code, Some(200));
    assert_eq!(res.body, "\"request succeeded\"");

    let res = get(&mut table, "42");
    assert_eq!(res.status_code, Some(404));
    assert_eq!(res.body, "\"record not found\"");
}

#[test]
fn put_with_missing_name_is_rejected() {
    let mut table = StudentTable::new();
    let res = app_service(
        &mut table,
        request(Method::Put, "/student", None, fields(Some("42"), None)),
    );
    assert_eq!(res.status_code, Some(400));
    assert_eq!(res.body, "\"missing or empty required field\"");
    // the rejected request left no record behind
    assert_eq!(get(&mut table, "42").status_code, Some(404));
}

#[test]
fn empty_fields_are_rejected() {
    let mut table = StudentTable::new();
    assert_eq!(put(&mut table, "", "Alice").status_code, Some(400));
    assert_eq!(put(&mut table, "42", "").status_code, Some(400));
    assert_eq!(get(&mut table, "").status_code, Some(400));
    assert_eq!(delete(&mut table, "").status_code, Some(400));
}

#[test]
fn malformed_body_is_rejected() {
    let mut table = StudentTable::new();
    let res =
        app_service(&mut table, request(Method::Put, "/student", None, RequestBody::Malformed));
    assert_eq!(res.status_code, Some(400));
    let res =
        app_service(&mut table, request(Method::Delete, "/student", None, RequestBody::Malformed));
    assert_eq!(res.status_code, Some(400));
}

#[test]
fn list_holds_exactly_the_stored_records() {
    let mut table = StudentTable::new();
    assert_eq!(list(&mut table).body, "[]");

    assert_eq!(put(&mut table, "42", "Alice").status_code, Some(201));
    assert_eq!(list(&mut table).body, "[{\"student_id\":\"42\",\"name\":\"Alice\"}]");

    assert_eq!(put(&mut table, "7", "Bob").status_code, Some(201));
    let res = list(&mut table);
    assert_eq!(res.status_code, Some(200));
    let parsed: serde_json::Value = serde_json::from_str(res.body.as_str()).unwrap();
    let records = parsed.as_array().unwrap();
    assert_eq!(records.len(), 2);
    let mut pairs: Vec<(String, String)> = records
        .iter()
        .map(|record| {
            (
                record["student_id"].as_str().unwrap().to_string(),
                record["name"].as_str().unwrap().to_string(),
            )
        })
        .collect();
    pairs.sort();
    assert_eq!(
        pairs,
        vec![("42".to_string(), "Alice".to_string()), ("7".to_string(), "Bob".to_string())]
    );

    assert_eq!(delete(&mut table, "42").status_code, Some(200));
    assert_eq!(list(&mut table).body, "[{\"student_id\":\"7\",\"name\":\"Bob\"}]");
}

#[test]
fn route_miss_answers_not_found_json() {
    let mut table = StudentTable::new();
    let res = app_service(&mut table, request(Method::Get, "/", None, fields(None, None)));
    assert_eq!(res.status_code, Some(404));
    assert_eq!(res.body, "\"Not Found\"");
    let res = app_service(&mut table, request(Method::Post, "/student/list", None, fields(None, None)));
    assert_eq!(res.status_code, Some(404));
    assert_eq!(res.body, "\"Not Found\"");
}

#[test]
fn json_strings_are_escaped() {
    assert_eq!(json_string("plain"), "\"plain\"");
    assert_eq!(json_string("a\"b\\c\nd\re\tf"), "\"a\\\"b\\\\c\\nd\\re\\tf\"");
    assert_eq!(json_string("\u{1}"), "\"\\u0001\"");
    assert_eq!(json_string("\u{1f}"), "\"\\u001f\"");
    let record = Student::new("x\"y".to_string(), "a\\b".to_string());
    let body = student_json(&record);
    assert_eq!(body, "{\"student_id\":\"x\\\"y\",\"name\":\"a\\\\b\"}");
    let parsed: serde_json::Value = serde_json::from_str(body.as_str()).unwrap();
    assert_eq!(parsed["student_id"].as_str().unwrap(), "x\"y");
    assert_eq!(parsed["name"].as_str().unwrap(), "a\\b");
}

#[test]
fn escaped_records_survive_the_round_trip() {
    let mut table = StudentTable::new();
    assert_eq!(put(&mut table, "a\"b", "new\nline").status_code, Some(201));
    let res = get(&mut table, "a\"b");
    assert_eq!(res.status_code, Some(200));
    assert_eq!(res.body, "{\"student_id\":\"a\\\"b\",\"name\":\"new\\nline\"}");
    let parsed: serde_json::Value = serde_json::from_str(res.body.as_str()).unwrap();
    assert_eq!(parsed["name"].as_str().unwrap(), "new\nline");
}

#[test]
fn decimal_rendering_is_exact() {
    assert_eq!(dec_string(0), "0");
    assert_eq!(dec_string(7), "7");
    assert_eq!(dec_string(42), "42");
    assert_eq!(dec_string(500), "500");
    assert_eq!(dec_string(65535), "65535");
}

#[test]
fn middleware_leaves_nonempty_bodies_alone() {
    let mut res = HttpResponse { status_code: Some(404), body: "\"x\"".to_string() };
    default_response_middleware(&mut res);
    assert_eq!(res.status_code, Some(404));
    assert_eq!(res.body, "\"x\"");
}

#[test]
fn middleware_synthesizes_reason_phrases() {
    let mut res = HttpResponse { status_code: Some(200), body: String::new() };
    default_response_middleware(&mut res);
    assert_eq!(res.status_code, Some(200));
    assert_eq!(res.body, "\"OK\"");

    let mut res = HttpResponse { status_code: Some(404), body: String::new() };
    default_response_middleware(&mut res);
    assert_eq!(res.body, "\"Not Found\"");

    let mut res = HttpResponse { status_code: Some(599), body: String::new() };
    default_response_middleware(&mut res);
    assert_eq!(res.status_code, Some(599));
    assert_eq!(res.body, "\"empty result with unknown status: 599\"");

    let mut res = HttpResponse { status_code: None, body: String::new() };
    default_response_middleware(&mut res);
    assert_eq!(res.status_code, Some(500));
    assert_eq!(res.body, "\"server did not return any valid data\"");
}

#[test]
fn error_response_honours_the_expose_flag() {
    let exposed = error_response("disk on fire", true);
    assert_eq!(exposed.status_code, 500);
    assert_eq!(exposed.content, "unhandled server error: disk on fire");
    let hidden = error_response("disk on fire", false);
    assert_eq!(hidden.status_code, 500);
    assert_eq!(hidden.content, "unhandled server error");
}
