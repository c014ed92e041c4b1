use garage_status::handler::{
    get_response, handle_request, put_response, route, Method, RequestBody, ServiceError, Step,
};
use garage_status::json::{error_body, extract_status_field, parse_garage_status, render_status_json};
use garage_status::status::{decode_status, encode_status, interpret_stored, GarageDoorStatus, Status};
use garage_status::store::{build_put_record, build_read_request, StoreModel};

#[test]
fn round_trip_open_closed() {
    assert_eq!(decode_status(&encode_status(Status::Open)), Some(Status::Open));
    assert_eq!(decode_status(&encode_status(Status::Closed)), Some(Status::Closed));
}

#[test]
fn encoding_is_exact() {
    assert_eq!(encode_status(Status::Open), "OPEN");
    assert_eq!(encode_status(Status::Closed), "CLOSED");
}

#[test]
fn decode_is_total_on_unknown_strings() {
    let unknown = [
        "",
        "open",
        "OPEN ",
        " CLOSED",
        "Closed",
        "AJAR",
        "OPENED",
        "null",
        "\"OPEN\"",
    ];
    for s in unknown {
        assert_eq!(decode_status(s), None);
    }
}

#[test]
fn writing_twice_equals_writing_once() {
    let rec = build_put_record(&GarageDoorStatus { status: Status::Closed });
    let mut once = StoreModel::new();
    once.put(&rec).unwrap();
    let mut twice = StoreModel::new();
    twice.put(&rec).unwrap();
    twice.put(&rec).unwrap();
    assert_eq!(once.stored, twice.stored);
    assert_eq!(twice.stored, Some("CLOSED".to_string()));
}

#[test]
fn get_before_any_write_is_absent_not_error() {
    let mut store = StoreModel::new();
    let r = handle_request(&mut store, Method::Get, &RequestBody::Empty).unwrap();
    assert_eq!(r.status_code, 200);
    assert_eq!(r.body, Some("null".to_string()));
}

#[test]
fn post_empty_body_is_rejected_without_write() {
    let mut store = StoreModel::new();
    let r = handle_request(&mut store, Method::Post, &RequestBody::Empty).unwrap();
    assert_eq!(r.status_code, 400);
    assert_eq!(r.body, Some(r#"{"error": "Request body required"}"#.to_string()));
    assert_eq!(store.puts, 0);
    assert_eq!(store.gets, 0);
    assert_eq!(store.stored, None);
}

#[test]
fn post_open_writes_once_with_fixed_key() {
    let mut store = StoreModel::new();
    let body = RequestBody::Present(r#"{"status":"OPEN"}"#.to_string());
    let r = handle_request(&mut store, Method::Post, &body).unwrap();
    assert_eq!(r.status_code, 200);
    assert_eq!(r.body, None);
    assert_eq!(store.puts, 1);
    assert_eq!(store.stored, Some("OPEN".to_string()));

    let rec = build_put_record(&GarageDoorStatus { status: Status::Open });
    assert_eq!(rec.table, "garage_status");
    assert_eq!(rec.partition_attr, "garage_name");
    assert_eq!(rec.partition_value, "main_garage");
    assert_eq!(rec.status_attr, "status");
    assert_eq!(rec.status_value, "OPEN");
}

#[test]
fn other_methods_are_refused_without_store_call() {
    let mut store = StoreModel::new();
    let r = handle_request(&mut store, Method::Other, &RequestBody::Empty).unwrap();
    assert_eq!(r.status_code, 405);
    assert_eq!(r.body, Some(r#"{"error": "Method not allowed"}"#.to_string()));
    assert_eq!(store.gets, 0);
    assert_eq!(store.puts, 0);
}

#[test]
fn store_failure_surfaces_as_500_on_get() {
    let mut store = StoreModel::new();
    store.set_fault("connection reset".to_string());
    let r = handle_request(&mut store, Method::Get, &RequestBody::Empty).unwrap();
    assert_eq!(r.status_code, 500);
    let body = r.body.unwrap();
    assert!(body.contains("connection reset"));
    assert_eq!(body, r#"{"error": "Database error: connection reset"}"#);
}

#[test]
fn store_failure_surfaces_as_500_on_post_and_writes_nothing() {
    let mut store = StoreModel::new();
    store.set_fault("table missing".to_string());
    let body = RequestBody::Present(r#"{"status":"CLOSED"}"#.to_string());
    let r = handle_request(&mut store, Method::Post, &body).unwrap();
    assert_eq!(r.status_code, 500);
    assert_eq!(r.body, Some(r#"{"error": "Database error: table missing"}"#.to_string()));
    assert_eq!(store.stored, None);
}

#[test]
fn body_grammar_accepts_the_documented_shapes() {
    assert_eq!(
        parse_garage_status(r#"{"status":"OPEN"}"#),
        Some(GarageDoorStatus { status: Status::Open })
    );
    assert_eq!(
        parse_garage_status(" { \"status\" : \"CLOSED\" } "),
        Some(GarageDoorStatus { status: Status::Closed })
    );
    assert_eq!(
        parse_garage_status("\t{\n\"status\"\r:\n\"OPEN\"\n}\n"),
        Some(GarageDoorStatus { status: Status::Open })
    );
}

#[test]
fn body_grammar_rejects_malformed_payloads() {
    let malformed = [
        "",
        "{}",
        "null",
        r#"{"status":}"#,
        r#"{"status":"OPEN""#,
        r#"{"status":"OPEN"} x"#,
        r#"["status","OPEN"]"#,
        r#"{"state":"OPEN"}"#,
        r#"{"status":"OP\u0045N"}"#,
        r#"{"status":"a\"b"}"#,
    ];
    for s in malformed {
        assert_eq!(parse_garage_status(s), None);
    }
}

#[test]
fn unknown_status_value_is_malformed_on_write() {
    assert_eq!(parse_garage_status(r#"{"status":"AJAR"}"#), None);
    let mut store = StoreModel::new();
    let body = RequestBody::Present(r#"{"status":"AJAR"}"#.to_string());
    let r = handle_request(&mut store, Method::Post, &body);
    assert_eq!(r, Err(ServiceError::MalformedPayload));
    assert_eq!(store.puts, 0);
    assert_eq!(store.stored, None);
}

#[test]
fn status_field_extraction_is_exact() {
    assert_eq!(
        extract_status_field(r#"{"status":"anything at all"}"#),
        Some("anything at all".to_string())
    );
    assert_eq!(extract_status_field(r#"{"status":""}"#), Some("".to_string()));
    assert_eq!(extract_status_field(r#"{"status":"x"} trailing"#), None);
}

#[test]
fn read_response_bodies_are_exact() {
    assert_eq!(
        render_status_json(&Some(GarageDoorStatus { status: Status::Open })),
        r#"{"status":"OPEN"}"#
    );
    assert_eq!(render_status_json(&None), "null");
}

#[test]
fn stored_values_outside_the_encodings_read_as_absent() {
    assert_eq!(interpret_stored(&Some("GARBAGE".to_string())), None);
    assert_eq!(
        interpret_stored(&Some("OPEN".to_string())),
        Some(GarageDoorStatus { status: Status::Open })
    );
    assert_eq!(interpret_stored(&None), None);
}

#[test]
fn error_body_embeds_description() {
    assert_eq!(error_body("boom"), r#"{"error": "Database error: boom"}"#);
}

#[test]
fn read_path_responses() {
    let r = get_response(&Ok(Some("CLOSED".to_string())));
    assert_eq!(r.status_code, 200);
    assert_eq!(r.body, Some(r#"{"status":"CLOSED"}"#.to_string()));
    let r = get_response(&Ok(Some("junk".to_string())));
    assert_eq!(r.status_code, 200);
    assert_eq!(r.body, Some("null".to_string()));
    let r = get_response(&Err("denied".to_string()));
    assert_eq!(r.status_code, 500);
    assert_eq!(r.body, Some(r#"{"error": "Database error: denied"}"#.to_string()));
}

#[test]
fn write_path_responses() {
    let r = put_response(&Ok(()));
    assert_eq!(r.status_code, 200);
    assert_eq!(r.body, None);
    let r = put_response(&Err("throttled".to_string()));
    assert_eq!(r.status_code, 500);
    assert_eq!(r.body, Some(r#"{"error": "Database error: throttled"}"#.to_string()));
}

#[test]
fn routing_decisions() {
    assert!(matches!(route(Method::Get, &RequestBody::Empty), Step::ReadStatus));
    assert!(matches!(
        route(Method::Get, &RequestBody::Present("ignored".to_string())),
        Step::ReadStatus
    ));
    match route(Method::Post, &RequestBody::Present(r#"{"status":"CLOSED"}"#.to_string())) {
        Step::WriteStatus(st) => assert_eq!(st, Status::Closed),
        _ => panic!("expected a write"),
    }
    assert!(matches!(
        route(Method::Post, &RequestBody::Present("{}".to_string())),
        Step::Fail
    ));
    match route(Method::Other, &RequestBody::Empty) {
        Step::Respond(resp) => assert_eq!(resp.status_code, 405),
        _ => panic!("expected an immediate response"),
    }
}

#[test]
fn read_request_uses_the_fixed_key() {
    let r = build_read_request();
    assert_eq!(r.table, "garage_status");
    assert_eq!(r.partition_attr, "garage_name");
    assert_eq!(r.partition_value, "main_garage");
}

#[test]
fn get_after_write_returns_the_written_status() {
    let mut store = StoreModel::new();
    let post = RequestBody::Present(r#"{"status":"CLOSED"}"#.to_string());
    handle_request(&mut store, Method::Post, &post).unwrap();
    let r = handle_request(&mut store, Method::Get, &RequestBody::Empty).unwrap();
    assert_eq!(r.status_code, 200);
    assert_eq!(r.body, Some(r#"{"status":"CLOSED"}"#.to_string()));
    assert_eq!(store.gets, 1);
    assert_eq!(store.puts, 1);
}
