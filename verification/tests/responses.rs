use curator::json::{find_member, find_text, JsonMember, JsonValue};
use curator::response::{
    interpret_document, interpret_reply, interpret_response, Reply, SubmissionOutcome,
};

fn malformed() -> SubmissionOutcome {
    SubmissionOutcome::ProtocolError { detail: "invalid server response".to_string() }
}

fn member(key: &str, value: JsonValue) -> JsonMember {
    JsonMember { key: key.to_string(), value }
}

fn text(value: &str) -> JsonValue {
    JsonValue::Text(value.to_string())
}

#[test]
fn status_ok_is_success() {
    assert_eq!(interpret_response("{\"status\":\"ok\"}"), SubmissionOutcome::Success);
}

#[test]
fn status_error_is_failure_with_the_message() {
    assert_eq!(
        interpret_response("{\"status\":\"error\",\"error\":\"bad toml\"}"),
        SubmissionOutcome::Failure { message: "bad toml".to_string() }
    );
}

#[test]
fn object_without_status_is_a_protocol_error() {
    assert_eq!(interpret_response("{\"not_a_status\":1}"), malformed());
}

#[test]
fn empty_body_is_a_protocol_error() {
    assert_eq!(interpret_response(""), malformed());
}

#[test]
fn malformed_json_is_a_protocol_error() {
    assert_eq!(interpret_response("{\"status\":\"ok\""), malformed());
    assert_eq!(interpret_response("<html>502</html>"), malformed());
    assert_eq!(interpret_response("{\"status\":\"ok\"} trailing"), malformed());
}

#[test]
fn unknown_status_is_a_protocol_error() {
    assert_eq!(interpret_response("{\"status\":\"pending\"}"), malformed());
    assert_eq!(interpret_response("{\"status\":\"OK\"}"), malformed());
    assert_eq!(interpret_response("{\"status\":\"\"}"), malformed());
}

#[test]
fn status_that_is_no_string_is_a_protocol_error() {
    assert_eq!(interpret_response("{\"status\":0}"), malformed());
    assert_eq!(interpret_response("{\"status\":true}"), malformed());
    assert_eq!(interpret_response("{\"status\":null}"), malformed());
    assert_eq!(interpret_response("{\"status\":[\"ok\"]}"), malformed());
}

#[test]
fn error_status_without_a_message_is_a_protocol_error() {
    assert_eq!(interpret_response("{\"status\":\"error\"}"), malformed());
    assert_eq!(interpret_response("{\"status\":\"error\",\"error\":17}"), malformed());
    assert_eq!(interpret_response("{\"status\":\"error\",\"error\":null}"), malformed());
}

#[test]
fn value_that_is_no_object_is_a_protocol_error() {
    assert_eq!(interpret_response("\"ok\""), malformed());
    assert_eq!(interpret_response("[\"ok\"]"), malformed());
    assert_eq!(interpret_response("null"), malformed());
    assert_eq!(interpret_response("1"), malformed());
}

#[test]
fn other_members_are_ignored() {
    assert_eq!(
        interpret_response(" { \"took\" : 1.5 , \"status\" : \"ok\" , \"error\" : \"unused\" } "),
        SubmissionOutcome::Success
    );
    assert_eq!(
        interpret_response("{\"error\":\"first line\\nsecond\",\"status\":\"error\",\"n\":[1,{}]}"),
        SubmissionOutcome::Failure { message: "first line\nsecond".to_string() }
    );
}

#[test]
fn empty_message_is_still_a_failure() {
    assert_eq!(
        interpret_response("{\"status\":\"error\",\"error\":\"\"}"),
        SubmissionOutcome::Failure { message: String::new() }
    );
}

#[test]
fn interpret_document_reads_a_parsed_answer() {
    let ok = Some(JsonValue::Object(vec![member("status", text("ok"))]));
    assert_eq!(interpret_document(&ok), SubmissionOutcome::Success);
    let refused = Some(JsonValue::Object(vec![
        member("error", text("bad toml")),
        member("status", text("error")),
    ]));
    assert_eq!(
        interpret_document(&refused),
        SubmissionOutcome::Failure { message: "bad toml".to_string() }
    );
    assert_eq!(interpret_document(&None), malformed());
    assert_eq!(interpret_document(&Some(JsonValue::Null)), malformed());
    assert_eq!(interpret_document(&Some(JsonValue::Bool(true))), malformed());
    assert_eq!(interpret_document(&Some(JsonValue::Number("1".to_string()))), malformed());
    assert_eq!(interpret_document(&Some(text("ok"))), malformed());
    assert_eq!(interpret_document(&Some(JsonValue::Array(vec![text("ok")]))), malformed());
    assert_eq!(interpret_document(&Some(JsonValue::Object(vec![]))), malformed());
    let no_message = Some(JsonValue::Object(vec![
        member("status", text("error")),
        member("error", JsonValue::Number("17".to_string())),
    ]));
    assert_eq!(interpret_document(&no_message), malformed());
}

#[test]
fn first_member_of_a_key_is_the_one_read() {
    let members = vec![
        member("status", text("ok")),
        member("status", text("error")),
        member("n", JsonValue::Null),
    ];
    assert_eq!(find_member(&members, "status"), Some(&text("ok")));
    assert_eq!(find_member(&members, "n"), Some(&JsonValue::Null));
    assert_eq!(find_member(&members, "missing"), None);
    assert_eq!(find_text(&members, "status"), Some(&"ok".to_string()));
    assert_eq!(find_text(&members, "n"), None);
    assert_eq!(find_text(&members, "missing"), None);
    assert_eq!(interpret_document(&Some(JsonValue::Object(members))), SubmissionOutcome::Success);
}

#[test]
fn unsent_request_is_a_transport_error_naming_endpoint_and_cause() {
    let reply = Reply::Unsent { cause: "connection refused".to_string() };
    assert_eq!(
        interpret_reply("https://curator.hodlcroft.net/validate/cardano/XYZ", &reply),
        SubmissionOutcome::TransportError {
            detail: "request to https://curator.hodlcroft.net/validate/cardano/XYZ failed: \
                     connection refused"
                .to_string()
        }
    );
}

#[test]
fn received_body_decides_the_outcome() {
    let reply = Reply::Received { body: Some("{\"status\":\"ok\"}".to_string()) };
    assert_eq!(interpret_reply("https://example.org", &reply), SubmissionOutcome::Success);
    let reply =
        Reply::Received { body: Some("{\"status\":\"error\",\"error\":\"no\"}".to_string()) };
    assert_eq!(
        interpret_reply("https://example.org", &reply),
        SubmissionOutcome::Failure { message: "no".to_string() }
    );
}

#[test]
fn unreadable_body_counts_as_the_empty_body() {
    let reply = Reply::Received { body: None };
    assert_eq!(interpret_reply("https://example.org", &reply), malformed());
    assert_eq!(
        interpret_reply("https://example.org", &reply),
        interpret_reply("https://example.org", &Reply::Received { body: Some(String::new()) })
    );
}

#[test]
fn repeated_member_is_read_by_its_last_value() {
    assert_eq!(
        interpret_response("{\"status\":\"error\",\"status\":\"ok\"}"),
        SubmissionOutcome::Success
    );
    assert_eq!(
        interpret_response("{\"status\":\"error\",\"error\":\"first\",\"error\":\"second\"}"),
        SubmissionOutcome::Failure { message: "second".to_string() }
    );
}
