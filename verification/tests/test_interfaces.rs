//! The service exercised end to end through `app_service`, the way the
//! HTTP layer drives it: requests in, status and JSON body out.

use student_api::default_handler::HttpResponse;
use student_api::service::app_service;
use student_api::service::HttpRequest;
use student_api::service::Method;
use student_api::service::RequestBody;
use student_api::store::StudentTable;

fn is_json(slice: &str) -> bool {
    serde_json::from_str::<serde_json::Value>(slice).is_ok()
}

#[test]
fn test_is_json() {
    assert!(is_json(r#""""#));
    assert!(is_json(r#"{"fewq": 321, "fewqe": [{"www": 3.141}, null]}"#));
    assert!(!is_json(r#""#));
    assert!(!is_json(r#"<html></html>"#));
}

fn request(
    method: Method,
    path: &str,
    query_student_id: Option<&str>,
    body: RequestBody,
) -> HttpRequest {
    HttpRequest {
        method,
        path: path.to_string(),
        query_student_id: query_student_id.map(|s| s.to_string()),
        body,
    }
}

fn fields(student_id: Option<&str>, name: Option<&str>) -> RequestBody {
    RequestBody::Fields {
        student_id: student_id.map(|s| s.to_string()),
        name: name.map(|s| s.to_string()),
    }
}

#[test]
fn test_404() {
    let mut table = StudentTable::new();
    let cases = [
        (Method::Get, "/non-existent-api"),
        (Method::Get, "/student/non-existent-api"),
        (Method::Post, "/student"),
    ];
    for (method, path) in cases {
        let res = app_service(&mut table, request(method, path, None, RequestBody::Malformed));
        assert_eq!(res.status_code, Some(404));
        // should return json, instead of a default framework 404 page
        assert!(is_json(res.body.as_str()));
    }
}

/// Fetches the student list and returns the parsed array, asserting that no
/// server error occurred.
fn get_student_list(table: &mut StudentTable) -> Vec<(String, String)> {
    let res = app_service(table, request(Method::Get, "/student/list", None, fields(None, None)));
    assert_eq!(res.status_code, Some(200));
    let parsed: serde_json::Value = serde_json::from_str(res.body.as_str()).unwrap();
    parsed
        .as_array()
        .unwrap()
        .iter()
        .map(|record| {
            (
                record["student_id"].as_str().unwrap().to_string(),
                record["name"].as_str().unwrap().to_string(),
            )
        })
        .collect()
}

/// Creates or updates a record, first asserting that a missing `name` field
/// is rejected, and that no server error occurred.
fn put_student(table: &mut StudentTable, stu_id: &str, name: &str) -> HttpResponse {
    let rejected =
        app_service(table, request(Method::Put, "/student", None, fields(Some(stu_id), None)));
    assert_eq!(rejected.status_code, Some(400));
    let res =
        app_service(table, request(Method::Put, "/student", None, fields(Some(stu_id), Some(name))));
    let status = res.status_code.unwrap();
    assert!((200..300).contains(&status), "{:?}", res.body);
    res
}

/// Deletes a record, first asserting that a missing `student_id` field is
/// rejected, and that no server error occurred.
fn delete_student(table: &mut StudentTable, student_id: &str) -> HttpResponse {
    let rejected =
        app_service(table, request(Method::Delete, "/student", None, fields(None, None)));
    assert_eq!(rejected.status_code, Some(400));
    let res = app_service(
        table,
        request(Method::Delete, "/student", None, fields(Some(student_id), None)),
    );
    assert!(!(500..600).contains(&res.status_code.unwrap()));
    res
}

/// Fetches a record, first asserting that a request without the
/// `student_id` query parameter is rejected, and that no server error
/// occurred.
fn get_student(table: &mut StudentTable, student_id: &str) -> HttpResponse {
    let rejected = app_service(table, request(Method::Get, "/student", None, fields(None, None)));
    assert_eq!(rejected.status_code, Some(400));
    let res =
        app_service(table, request(Method::Get, "/student", Some(student_id), fields(None, None)));
    assert!(!(500..600).contains(&res.status_code.unwrap()));
    res
}

/// Whether the record is both readable by key and present in the list.
fn has_student_record(table: &mut StudentTable, student_id: &str, name: &str) -> bool {
    let stu_list = get_student_list(table);
    let get_stu_res = get_student(table, student_id);
    let test_stu = (student_id.to_string(), name.to_string());
    match get_stu_res.status_code.unwrap() {
        status if (200..300).contains(&status) => {
            let parsed: serde_json::Value =
                serde_json::from_str(get_stu_res.body.as_str()).unwrap();
            let fetched = (
                parsed["student_id"].as_str().unwrap().to_string(),
                parsed["name"].as_str().unwrap().to_string(),
            );
            fetched == test_stu && stu_list.contains(&test_stu)
        }
        404 => false,
        other => {
            panic!("unexpected status {} when getting student", other)
        }
    }
}

#[test]
fn test_add_find_update_delete_student() {
    let mut table = StudentTable::new();
    let test_stu_id = "199";
    let test_name = "13";

    let _ = delete_student(&mut table, test_stu_id);
    let del_res = delete_student(&mut table, test_stu_id);
    // already deleted above, so this one cannot find the record
    assert!(!has_student_record(&mut table, test_stu_id, test_name));
    assert_eq!(del_res.status_code, Some(404));

    let put_res = put_student(&mut table, test_stu_id, test_name);
    // deleted above, so this one must create
    assert_eq!(put_res.status_code, Some(201));

    assert!(has_student_record(&mut table, test_stu_id, test_name));

    // added above, so these must update
    assert_eq!(put_student(&mut table, test_stu_id, test_name).status_code, Some(200));
    let test_name2 = "212";
    assert_eq!(put_student(&mut table, test_stu_id, test_name2).status_code, Some(200));

    assert!(!has_student_record(&mut table, test_stu_id, test_name));
    assert!(has_student_record(&mut table, test_stu_id, test_name2));

    let del_res = delete_student(&mut table, test_stu_id);
    // added above, so this delete must succeed
    assert!((200..300).contains(&del_res.status_code.unwrap()));

    assert!(!has_student_record(&mut table, test_stu_id, test_name));
    assert!(!has_student_record(&mut table, test_stu_id, test_name2));
}
