//! Call-wrapper ownership protocol, cursor state machine, and
//! connection lifecycle, driven against the in-memory native double.

use teradatarustapi::{
    commit, create_connection, execute_request, execute_simple_request, go_cancel_request_wrapper,
    go_close_connection_wrapper, go_close_rows_wrapper, go_combine_json_wrapper,
    go_next_result_wrapper, go_parse_params_wrapper, rollback, rustgo_create_rows_wrapper,
    rustgo_fetch_row_wrapper, rustgo_result_metadata_wrapper, set_autocommit, DriverError,
    FaultPoint, MockNative, ResultSet,
};

fn result_set(count: u64, kind: u16, name: &str, meta: &str, rows: Vec<&str>) -> ResultSet {
    ResultSet {
        activity_count: count,
        activity_type: kind,
        activity_name: name.to_string(),
        column_metadata: meta.to_string(),
        rows: rows.into_iter().map(String::from).collect(),
    }
}

fn no_leak(mock: &MockNative) {
    assert_eq!(mock.alloc_count, mock.free_count, "some native buffer was not freed");
}

#[test]
fn combine_json_disjoint_union() {
    let mut mock = MockNative::new();
    let merged =
        go_combine_json_wrapper(&mut mock, "{\"a\":1}", "{\"b\":2,\"c\":\"x\"}").unwrap();
    assert_eq!(merged, "{\"a\":1,\"b\":2,\"c\":\"x\"}");
    no_leak(&mock);
}

#[test]
fn combine_json_empty_objects() {
    let mut mock = MockNative::new();
    assert_eq!(go_combine_json_wrapper(&mut mock, "{}", "{}").unwrap(), "{}");
    assert_eq!(
        go_combine_json_wrapper(&mut mock, "{}", "{\"b\":2}").unwrap(),
        "{\"b\":2}"
    );
    assert_eq!(
        go_combine_json_wrapper(&mut mock, "{\"a\":1}", " {} ").unwrap(),
        "{\"a\":1}"
    );
    no_leak(&mock);
}

#[test]
fn combine_json_rejects_non_objects() {
    let mut mock = MockNative::new();
    assert!(go_combine_json_wrapper(&mut mock, "[1,2]", "{}").is_err());
    assert!(go_combine_json_wrapper(&mut mock, "{}", "3").is_err());
    assert!(go_combine_json_wrapper(&mut mock, "\"x\"", "true").is_err());
    no_leak(&mock);
}

#[test]
fn parse_params_accepts_objects_only() {
    let mut mock = MockNative::new();
    assert!(go_parse_params_wrapper(&mut mock, "{\"host\":\"h\"}").is_ok());
    assert!(go_parse_params_wrapper(&mut mock, "not json").is_err());
    no_leak(&mock);
}

#[test]
fn error_buffer_freed_for_combine_json() {
    let mut mock = MockNative::new();
    mock.set_fault(FaultPoint::CombineJson, "boom".to_string());
    let r = go_combine_json_wrapper(&mut mock, "{}", "{}");
    assert_eq!(r.unwrap_err(), "boom");
    assert_eq!(mock.free_count, 1);
    no_leak(&mock);
}

#[test]
fn error_buffer_freed_for_parse_params() {
    let mut mock = MockNative::new();
    mock.set_fault(FaultPoint::ParseParams, "boom".to_string());
    assert_eq!(go_parse_params_wrapper(&mut mock, "{}").unwrap_err(), "boom");
    assert_eq!(mock.free_count, 1);
    no_leak(&mock);
}

#[test]
fn error_buffer_freed_for_create_connection() {
    let mut mock = MockNative::new();
    mock.set_fault(FaultPoint::CreateConnection, "boom".to_string());
    assert!(create_connection(&mut mock, "{}").is_err());
    no_leak(&mock);
}

#[test]
fn error_buffer_freed_for_close_connection() {
    let mut mock = MockNative::new();
    mock.set_fault(FaultPoint::CloseConnection, "boom".to_string());
    assert_eq!(go_close_connection_wrapper(&mut mock, 1, 2).unwrap_err(), "boom");
    assert_eq!(mock.free_count, 1);
    no_leak(&mock);
}

#[test]
fn error_buffer_freed_for_cancel_request() {
    let mut mock = MockNative::new();
    mock.set_fault(FaultPoint::CancelRequest, "boom".to_string());
    assert_eq!(go_cancel_request_wrapper(&mut mock, 1, 2).unwrap_err(), "boom");
    assert_eq!(mock.free_count, 1);
    no_leak(&mock);
}

#[test]
fn error_buffer_freed_for_create_rows() {
    let mut mock = MockNative::new();
    mock.set_fault(FaultPoint::CreateRows, "boom".to_string());
    assert_eq!(
        rustgo_create_rows_wrapper(&mut mock, 1, 2, "select 1", "null").unwrap_err(),
        "boom"
    );
    assert_eq!(mock.free_count, 1);
    no_leak(&mock);
}

#[test]
fn error_buffer_freed_for_result_metadata() {
    let mut mock = MockNative::new();
    mock.set_fault(FaultPoint::ResultMetadata, "boom".to_string());
    assert_eq!(rustgo_result_metadata_wrapper(&mut mock, 1, 2).unwrap_err(), "boom");
    assert_eq!(mock.free_count, 1);
    no_leak(&mock);
}

#[test]
fn error_buffer_freed_for_fetch_row() {
    let mut mock = MockNative::new();
    mock.set_fault(FaultPoint::FetchRow, "boom".to_string());
    assert_eq!(rustgo_fetch_row_wrapper(&mut mock, 1, 2).unwrap_err(), "boom");
    assert_eq!(mock.free_count, 1);
    no_leak(&mock);
}

#[test]
fn error_buffer_freed_for_next_result() {
    let mut mock = MockNative::new();
    mock.set_fault(FaultPoint::NextResult, "boom".to_string());
    assert_eq!(go_next_result_wrapper(&mut mock, 1, 2).unwrap_err(), "boom");
    assert_eq!(mock.free_count, 1);
    no_leak(&mock);
}

#[test]
fn error_buffer_freed_for_close_rows() {
    let mut mock = MockNative::new();
    mock.set_fault(FaultPoint::CloseRows, "boom".to_string());
    assert_eq!(go_close_rows_wrapper(&mut mock, 1, 2).unwrap_err(), "boom");
    assert_eq!(mock.free_count, 1);
    no_leak(&mock);
}

#[test]
fn success_buffers_are_freed_too() {
    let mut mock = MockNative::new();
    mock.push_request_results(vec![result_set(1, 1, "Select", "[]", vec!["[1]"])]);
    let (u_log, conn) = create_connection(&mut mock, "{\"host\":\"h\"}").unwrap();
    let results = execute_request(&mut mock, u_log, conn, "select 1", "null").unwrap();
    assert_eq!(results.len(), 1);
    no_leak(&mock);
}

#[test]
fn full_cursor_round_trip() {
    let mut mock = MockNative::new();
    mock.push_request_results(vec![
        result_set(2, 1, "Select", "[{\"c\":1},{\"c\":2}]", vec!["[1,\"a\"]", "[2,\"b\"]"]),
        result_set(1, 1, "Select", "[{\"c\":1}]", vec!["[3]"]),
        result_set(0, 2, "Insert", "[]", vec![]),
    ]);
    let (u_log, conn) = create_connection(&mut mock, "{}").unwrap();
    let results = execute_request(&mut mock, u_log, conn, "select ; select ; insert", "null")
        .unwrap();
    assert_eq!(results.len(), 3);
    assert_eq!(results[0].activity_count, 2);
    assert_eq!(results[0].activity_name, "Select");
    assert_eq!(results[0].column_metadata, "[{\"c\":1},{\"c\":2}]");
    assert_eq!(results[0].rows, vec!["[1,\"a\"]", "[2,\"b\"]"]);
    assert_eq!(results[1].rows, vec!["[3]"]);
    assert_eq!(results[2].activity_name, "Insert");
    assert!(results[2].rows.is_empty());
    // the cursor was released
    assert!(!mock.has_cursor);
    no_leak(&mock);
}

#[test]
fn cursor_closed_even_when_fetch_fails() {
    let mut mock = MockNative::new();
    mock.push_request_results(vec![result_set(1, 1, "Select", "[]", vec!["[1]"])]);
    let (u_log, conn) = create_connection(&mut mock, "{}").unwrap();
    mock.set_fault(FaultPoint::FetchRow, "connection reset".to_string());
    match execute_request(&mut mock, u_log, conn, "select 1", "null") {
        Err(DriverError::Fetch(m)) => assert_eq!(m, "connection reset"),
        _ => panic!("expected a fetch failure"),
    }
    assert!(!mock.has_cursor, "the cursor must be released on the error path too");
    no_leak(&mock);
}

#[test]
fn fetch_row_end_of_rows_is_not_an_error() {
    let mut mock = MockNative::new();
    mock.push_request_results(vec![result_set(1, 1, "Select", "[]", vec!["[42]"])]);
    let h = rustgo_create_rows_wrapper(&mut mock, 1, 2, "select 42", "null").unwrap();
    rustgo_result_metadata_wrapper(&mut mock, 1, h).unwrap();
    assert_eq!(rustgo_fetch_row_wrapper(&mut mock, 1, h).unwrap(), Some("[42]".to_string()));
    // the last row was fetched: the signal, never an error
    assert_eq!(rustgo_fetch_row_wrapper(&mut mock, 1, h).unwrap(), None);
    assert_eq!(rustgo_fetch_row_wrapper(&mut mock, 1, h).unwrap(), None);
    go_close_rows_wrapper(&mut mock, 1, h).unwrap();
    no_leak(&mock);
}

#[test]
fn next_result_after_final_result_is_false() {
    let mut mock = MockNative::new();
    mock.push_request_results(vec![
        result_set(1, 1, "Select", "[]", vec!["[1]"]),
        result_set(1, 1, "Select", "[]", vec!["[2]"]),
    ]);
    let h = rustgo_create_rows_wrapper(&mut mock, 1, 2, "select ; select", "null").unwrap();
    rustgo_result_metadata_wrapper(&mut mock, 1, h).unwrap();
    assert_eq!(rustgo_fetch_row_wrapper(&mut mock, 1, h).unwrap(), Some("[1]".to_string()));
    assert_eq!(rustgo_fetch_row_wrapper(&mut mock, 1, h).unwrap(), None);
    assert_eq!(go_next_result_wrapper(&mut mock, 1, h).unwrap(), true);
    rustgo_result_metadata_wrapper(&mut mock, 1, h).unwrap();
    assert_eq!(rustgo_fetch_row_wrapper(&mut mock, 1, h).unwrap(), Some("[2]".to_string()));
    assert_eq!(rustgo_fetch_row_wrapper(&mut mock, 1, h).unwrap(), None);
    // the final result was consumed
    assert_eq!(go_next_result_wrapper(&mut mock, 1, h).unwrap(), false);
    // no further metadata or fetch call is valid on this handle
    assert!(rustgo_result_metadata_wrapper(&mut mock, 1, h).is_err());
    assert!(rustgo_fetch_row_wrapper(&mut mock, 1, h).is_err());
    go_close_rows_wrapper(&mut mock, 1, h).unwrap();
    no_leak(&mock);
}

#[test]
fn metadata_is_required_before_fetching() {
    let mut mock = MockNative::new();
    mock.push_request_results(vec![result_set(1, 1, "Select", "[]", vec!["[1]"])]);
    let h = rustgo_create_rows_wrapper(&mut mock, 1, 2, "select 1", "null").unwrap();
    assert!(rustgo_fetch_row_wrapper(&mut mock, 1, h).is_err());
    go_close_rows_wrapper(&mut mock, 1, h).unwrap();
    no_leak(&mock);
}

#[test]
fn close_rows_is_valid_exactly_once() {
    let mut mock = MockNative::new();
    mock.push_request_results(vec![result_set(0, 2, "Insert", "[]", vec![])]);
    let h = rustgo_create_rows_wrapper(&mut mock, 1, 2, "insert", "null").unwrap();
    assert!(go_close_rows_wrapper(&mut mock, 1, h).is_ok());
    assert!(go_close_rows_wrapper(&mut mock, 1, h).is_err());
    no_leak(&mock);
}

#[test]
fn bind_values_pass_through_unmodified() {
    let mut mock = MockNative::new();
    mock.push_request_results(vec![result_set(1, 2, "Insert", "[]", vec![])]);
    mock.push_request_results(vec![result_set(2, 2, "Insert", "[]", vec![])]);
    let h = rustgo_create_rows_wrapper(
        &mut mock,
        1,
        2,
        "insert into vtab values (?, ?)",
        "[[123,\"hello\"]]",
    )
    .unwrap();
    assert_eq!(mock.last_bind.as_deref(), Some("[[123,\"hello\"]]"));
    assert_eq!(mock.last_request.as_deref(), Some("insert into vtab values (?, ?)"));
    go_close_rows_wrapper(&mut mock, 1, h).unwrap();
    let h = rustgo_create_rows_wrapper(
        &mut mock,
        1,
        2,
        "insert into vtab values (?, ?)",
        "[[456,\"world\"],[789,\"foobar\"]]",
    )
    .unwrap();
    assert_eq!(mock.last_bind.as_deref(), Some("[[456,\"world\"],[789,\"foobar\"]]"));
    go_close_rows_wrapper(&mut mock, 1, h).unwrap();
    no_leak(&mock);
}

#[test]
fn create_connection_returns_handles() {
    let mut mock = MockNative::new();
    let (u_log, conn) = create_connection(&mut mock, "{\"host\":\"h\"}").unwrap();
    assert!(u_log >= 1);
    assert!(conn >= 1);
    go_close_connection_wrapper(&mut mock, u_log, conn).unwrap();
    no_leak(&mock);
}

#[test]
fn create_connection_rejects_bad_params() {
    let mut mock = MockNative::new();
    match create_connection(&mut mock, "not an object") {
        Err(DriverError::Param(_)) => {}
        _ => panic!("expected a parameter failure"),
    }
    no_leak(&mock);
}

#[test]
fn commit_sends_its_request_text() {
    let mut mock = MockNative::new();
    mock.push_request_results(vec![result_set(0, 3, "Commit", "[]", vec![])]);
    commit(&mut mock, 1, 2).unwrap();
    assert_eq!(mock.last_request.as_deref(), Some("{fn teradata_commit}"));
    assert_eq!(mock.last_bind.as_deref(), Some("null"));
    assert!(!mock.has_cursor);
    no_leak(&mock);
}

#[test]
fn rollback_sends_its_request_text() {
    let mut mock = MockNative::new();
    mock.push_request_results(vec![result_set(0, 3, "Rollback", "[]", vec![])]);
    rollback(&mut mock, 1, 2).unwrap();
    assert_eq!(mock.last_request.as_deref(), Some("{fn teradata_rollback}"));
    no_leak(&mock);
}

#[test]
fn set_autocommit_sends_its_request_text() {
    let mut mock = MockNative::new();
    mock.push_request_results(vec![result_set(0, 3, "Set", "[]", vec![])]);
    mock.push_request_results(vec![result_set(0, 3, "Set", "[]", vec![])]);
    set_autocommit(&mut mock, 1, 2, true).unwrap();
    assert_eq!(
        mock.last_request.as_deref(),
        Some("{fn teradata_nativesql}{fn teradata_autocommit_on}")
    );
    set_autocommit(&mut mock, 1, 2, false).unwrap();
    assert_eq!(
        mock.last_request.as_deref(),
        Some("{fn teradata_nativesql}{fn teradata_autocommit_off}")
    );
    no_leak(&mock);
}

#[test]
fn execute_simple_request_reports_request_errors() {
    let mut mock = MockNative::new();
    // nothing scripted: the request is rejected
    match execute_simple_request(&mut mock, 1, 2, "select 1") {
        Err(DriverError::Request(_)) => {}
        _ => panic!("expected a request failure"),
    }
    no_leak(&mock);
}

#[test]
fn driver_error_carries_the_native_message() {
    let e = DriverError::Connection("host unreachable".to_string());
    assert_eq!(e.message().as_str(), "host unreachable");
    let e = DriverError::Param("bad key".to_string());
    assert_eq!(e.message().as_str(), "bad key");
}

#[test]
fn cancel_request_succeeds_without_fault() {
    let mut mock = MockNative::new();
    assert!(go_cancel_request_wrapper(&mut mock, 1, 2).is_ok());
    no_leak(&mock);
}

#[test]
fn combine_json_nested_values() {
    let mut mock = MockNative::new();
    let merged =
        go_combine_json_wrapper(&mut mock, "{\"a\":{\"x\":[1,2]}}", "{\"b\":\"y\"}").unwrap();
    assert_eq!(merged, "{\"a\":{\"x\":[1,2]},\"b\":\"y\"}");
    no_leak(&mock);
}

#[test]
fn cursor_closed_even_when_metadata_fails() {
    let mut mock = MockNative::new();
    mock.push_request_results(vec![result_set(1, 1, "Select", "[]", vec!["[1]"])]);
    let (u_log, conn) = create_connection(&mut mock, "{}").unwrap();
    mock.set_fault(FaultPoint::ResultMetadata, "boom".to_string());
    match execute_request(&mut mock, u_log, conn, "select 1", "null") {
        Err(DriverError::Fetch(m)) => assert_eq!(m, "boom"),
        _ => panic!("expected a fetch failure"),
    }
    assert!(!mock.has_cursor, "the cursor must be released on the error path too");
    no_leak(&mock);
}

#[test]
fn sequential_requests_reuse_the_machinery() {
    let mut mock = MockNative::new();
    mock.push_request_results(vec![result_set(1, 1, "Select", "[]", vec!["[1]"])]);
    mock.push_request_results(vec![result_set(1, 1, "Select", "[]", vec!["[2]"])]);
    let (u_log, conn) = create_connection(&mut mock, "{}").unwrap();
    let first = execute_request(&mut mock, u_log, conn, "select 1", "null").unwrap();
    assert_eq!(first[0].rows, vec!["[1]"]);
    let second = execute_request(&mut mock, u_log, conn, "select 2", "null").unwrap();
    assert_eq!(second[0].rows, vec!["[2]"]);
    assert!(!mock.has_cursor);
    no_leak(&mock);
}

#[test]
fn cleared_fault_restores_the_entry_point() {
    let mut mock = MockNative::new();
    mock.set_fault(FaultPoint::CombineJson, "boom".to_string());
    assert!(go_combine_json_wrapper(&mut mock, "{}", "{}").is_err());
    mock.clear_fault();
    assert_eq!(go_combine_json_wrapper(&mut mock, "{}", "{}").unwrap(), "{}");
    no_leak(&mock);
}

#[test]
fn close_failure_is_propagated() {
    let mut mock = MockNative::new();
    mock.push_request_results(vec![result_set(0, 2, "Insert", "[]", vec![])]);
    mock.set_fault(FaultPoint::CloseRows, "flush failed".to_string());
    match execute_simple_request(&mut mock, 1, 2, "insert") {
        Err(DriverError::Fetch(m)) => assert_eq!(m, "flush failed"),
        _ => panic!("expected the close failure to be propagated"),
    }
    // the handle is spent even though the release reported a failure
    assert!(!mock.has_cursor);
    no_leak(&mock);
}

#[test]
fn close_failure_still_releases_the_cursor() {
    let mut mock = MockNative::new();
    mock.push_request_results(vec![result_set(1, 1, "Select", "[]", vec!["[1]"])]);
    let (u_log, conn) = create_connection(&mut mock, "{}").unwrap();
    mock.set_fault(FaultPoint::CloseRows, "flush failed".to_string());
    match execute_request(&mut mock, u_log, conn, "select 1", "null") {
        Err(DriverError::Fetch(m)) => assert_eq!(m, "flush failed"),
        _ => panic!("expected the close failure to be propagated"),
    }
    assert!(!mock.has_cursor);
    no_leak(&mock);
}
