use std::collections::HashMap;

use firre::firestore::{
    build_field, build_url, core_batch_delete, core_count_documents, core_delete_document, core_delete_field,
    core_field_increment, core_get, core_list_documents, core_patch, core_server_timestamp, finish_count,
    patch_value_text, IncrementAmount,
};
use firre::http::{HttpMethod, HttpReply, ReplyWording, RequestBody};

const DOCS: &str = "https://firestore.googleapis.com/v1/projects/proj/databases/(default)/documents";

fn pairs(v: &[(&str, &str)]) -> Vec<(String, String)> {
    v.iter().map(|(a, b)| (a.to_string(), b.to_string())).collect()
}

fn json_body(body: &RequestBody) -> &str {
    match body {
        RequestBody::Json(t) => t.as_str(),
        other => panic!("expected a JSON body, got {other:?}"),
    }
}

fn ok(text: &str) -> HttpReply {
    HttpReply::Received { status: 200, status_line: "200 OK".to_string(), body: Ok(text.to_string()) }
}

#[test]
fn document_urls_drop_leading_slashes() {
    assert_eq!(build_url("proj", "//users/abc"), format!("{DOCS}/users/abc"));
    assert_eq!(build_url("proj", "users/abc"), format!("{DOCS}/users/abc"));
    assert_eq!(build_url("proj", ""), format!("{DOCS}/"));
}

#[test]
fn get_and_delete_send_the_bearer_token_and_extra_headers() {
    let mut extra = HashMap::new();
    extra.insert("X-Trace".to_string(), "1".to_string());
    let call = core_get("tok", "proj", "/users/abc", Some(extra.clone()));
    assert_eq!(call.request.method, HttpMethod::Get);
    assert_eq!(call.request.url, format!("{DOCS}/users/abc"));
    assert_eq!(call.request.headers, pairs(&[("Authorization", "Bearer tok")]));
    assert_eq!(call.request.extra_headers, Some(extra));
    assert!(matches!(call.request.body, RequestBody::Empty));
    assert_eq!(call.wording, ReplyWording::Standard);

    let call = core_delete_document("tok", "proj", "users/abc", None);
    assert_eq!(call.request.method, HttpMethod::Delete);
    assert_eq!(call.request.url, format!("{DOCS}/users/abc"));
    assert_eq!(call.request.extra_headers, None);
}

#[test]
fn list_documents_asks_for_names_only() {
    let call = core_list_documents("tok", "proj", "users", 300, None, None);
    assert_eq!(call.request.url, format!("{DOCS}/users?pageSize=300&mask.fieldPaths=__name__"));
    let call = core_list_documents("tok", "proj", "/users", -5, Some("NEXT"), None);
    assert_eq!(call.request.url, format!("{DOCS}/users?pageSize=-5&mask.fieldPaths=__name__&pageToken=NEXT"));
    assert_eq!(call.request.method, HttpMethod::Get);
}

#[test]
fn server_timestamp_commits_a_transform() {
    let call = core_server_timestamp("tok", "proj", "/users/u1", "lastSeen", None);
    assert_eq!(call.request.method, HttpMethod::Post);
    assert_eq!(
        call.request.url,
        "https://firestore.googleapis.com/v1/projects/proj/databases/(default)/documents:commit"
    );
    assert_eq!(
        call.request.headers,
        pairs(&[("Authorization", "Bearer tok"), ("Content-Type", "application/json")])
    );
    assert_eq!(
        json_body(&call.request.body),
        "{\"writes\":[{\"transform\":{\"document\":\"projects/proj/databases/(default)/documents/users/u1\",\"fieldTransforms\":[{\"fieldPath\":\"lastSeen\",\"setToServerValue\":\"REQUEST_TIME\"}]}}]}"
    );
    assert_eq!(call.wording, ReplyWording::TimestampCommit);
}

#[test]
fn increments_whole_and_fractional_amounts() {
    let call = core_field_increment("tok", "proj", "users/u1", "loginCount", IncrementAmount::Integer(-3), None);
    assert_eq!(
        json_body(&call.request.body),
        "{\"writes\":[{\"transform\":{\"document\":\"projects/proj/databases/(default)/documents/users/u1\",\"fieldTransforms\":[{\"fieldPath\":\"loginCount\",\"increment\":{\"integerValue\":-3}}]}}]}"
    );
    assert_eq!(call.wording, ReplyWording::IncrementCommit);
    let call = core_field_increment(
        "tok",
        "proj",
        "users/u1",
        "score",
        IncrementAmount::Double("1.5".to_string()),
        None,
    );
    assert!(json_body(&call.request.body).contains("\"increment\":{\"doubleValue\":1.5}"));
}

#[test]
fn delete_field_masks_the_field_with_an_empty_body() {
    let call = core_delete_field("tok", "proj", "users/u1", "nickname", None);
    assert_eq!(call.request.method, HttpMethod::Patch);
    assert_eq!(call.request.url, format!("{DOCS}/users/u1?updateMask.fieldPaths=nickname"));
    assert_eq!(
        call.request.headers,
        pairs(&[("Authorization", "Bearer tok"), ("Content-Type", "application-json")])
    );
    assert_eq!(json_body(&call.request.body), "{\"fields\":{}}");
    assert_eq!(call.wording, ReplyWording::FieldDelete);
}

#[test]
fn patch_values_follow_their_type() {
    assert_eq!(patch_value_text("stringValue", "Ann \"A\"", None), Ok("{\"stringValue\":\"Ann \\\"A\\\"\"}".to_string()));
    assert_eq!(patch_value_text("integerValue", "42", None), Ok("{\"integerValue\":\"42\"}".to_string()));
    assert_eq!(patch_value_text("doubleValue", "2.5", Some("2.5".to_string())), Ok("{\"doubleValue\":2.5}".to_string()));
    assert_eq!(patch_value_text("doubleValue", "abc", None), Err("Invalid double: abc".to_string()));
    assert_eq!(patch_value_text("booleanValue", "true", None), Ok("{\"booleanValue\":true}".to_string()));
    assert_eq!(patch_value_text("booleanValue", "false", None), Ok("{\"booleanValue\":false}".to_string()));
    assert_eq!(patch_value_text("booleanValue", "yes", None), Err("Invalid boolean: yes".to_string()));
    assert_eq!(patch_value_text("nullValue", "anything", None), Ok("{\"nullValue\":null}".to_string()));
    assert_eq!(
        patch_value_text("timestampValue", "2026-03-19T15:37:04.272Z", None),
        Ok("{\"timestampValue\":\"2026-03-19T15:37:04.272Z\"}".to_string())
    );
    assert_eq!(
        patch_value_text("timestampValue", "yesterday", None),
        Err("Invalid timestampValue: 'yesterday' must be RFC3339 format e.g. 2026-03-19T15:37:04.272Z".to_string())
    );
    assert_eq!(patch_value_text("mapValue", "{}", None), Err("Invalid field type: mapValue".to_string()));
}

#[test]
fn dotted_field_paths_nest_map_values() {
    assert_eq!(build_field("name", "{\"stringValue\":\"x\"}"), "{\"name\":{\"stringValue\":\"x\"}}");
    assert_eq!(
        build_field("profile.displayName", "V"),
        "{\"profile\":{\"mapValue\":{\"fields\":{\"displayName\":V}}}}"
    );
    assert_eq!(
        build_field("a.b.c", "V"),
        "{\"a\":{\"mapValue\":{\"fields\":{\"b\":{\"mapValue\":{\"fields\":{\"c\":V}}}}}}}"
    );
    assert_eq!(build_field("a.", "V"), "{\"a\":{\"mapValue\":{\"fields\":{\"\":V}}}}");
}

#[test]
fn patch_builds_the_request_or_refuses() {
    let call = core_patch("tok", "proj", "users/u1", "integerValue", "stats.logins", "7", None, None).unwrap();
    assert_eq!(call.request.method, HttpMethod::Patch);
    assert_eq!(call.request.url, format!("{DOCS}/users/u1?updateMask.fieldPaths=stats.logins"));
    assert_eq!(
        json_body(&call.request.body),
        "{\"fields\":{\"stats\":{\"mapValue\":{\"fields\":{\"logins\":{\"integerValue\":\"7\"}}}}}}"
    );
    let body: serde_json::Value = serde_json::from_str(json_body(&call.request.body)).unwrap();
    assert_eq!(body["fields"]["stats"]["mapValue"]["fields"]["logins"]["integerValue"], "7");
    assert_eq!(
        core_patch("tok", "proj", "users/u1", "boolValue", "x", "true", None, None).map(|_| ()),
        Err("Invalid field type: boolValue".to_string())
    );
}

#[test]
fn batch_delete_writes_one_delete_per_name() {
    let names = vec!["projects/p/databases/(default)/documents/a/1".to_string(), "x\"y".to_string()];
    let call = core_batch_delete("tok", "proj", &names, None);
    assert_eq!(
        call.request.url,
        "https://firestore.googleapis.com/v1/projects/proj/databases/(default)/documents:batchWrite"
    );
    assert_eq!(
        json_body(&call.request.body),
        "{\"writes\":[{\"delete\":\"projects/p/databases/(default)/documents/a/1\"},{\"delete\":\"x\\\"y\"}]}"
    );
    let call = core_batch_delete("tok", "proj", &[], None);
    assert_eq!(json_body(&call.request.body), "{\"writes\":[]}");
}

#[test]
fn count_queries_the_parent_of_the_collection() {
    let call = core_count_documents("tok", "proj", "/users/abc/orders/", None);
    assert_eq!(call.request.method, HttpMethod::Post);
    assert_eq!(call.request.url, format!("{DOCS}/users/abc:runAggregationQuery"));
    assert_eq!(
        json_body(&call.request.body),
        "{\"structuredAggregationQuery\":{\"aggregations\":[{\"alias\":\"count\",\"count\":{}}],\"structuredQuery\":{\"from\":[{\"collectionId\":\"orders\"}]}}}"
    );
    let call = core_count_documents("tok", "proj", "users", None);
    assert_eq!(call.request.url, format!("{DOCS}:runAggregationQuery"));
}

#[test]
fn count_reads_the_aggregate() {
    let reply = "[{\"result\":{\"aggregateFields\":{\"count\":{\"integerValue\":\"42\"}}},\"readTime\":\"t\"}]";
    assert_eq!(finish_count(ok(reply)), Ok(42));
    assert_eq!(
        finish_count(ok("[{\"result\":{}}]")),
        Err("Unexpected aggregation response shape: [{\"result\":{}}]".to_string())
    );
    let msg = serde_json::from_str::<serde_json::Value>("[").unwrap_err().to_string();
    assert_eq!(finish_count(ok("[")), Err(format!("Bad aggregation response: {msg}")));
    assert_eq!(
        finish_count(ok("[{\"result\":{\"aggregateFields\":{\"count\":{\"integerValue\":\"4x\"}}}}]")),
        Err("Failed to parse count: invalid digit found in string".to_string())
    );
    assert_eq!(
        finish_count(HttpReply::Unsent("dns".to_string())),
        Err("Request failed: dns".to_string())
    );
}

#[test]
fn integer_patches_must_read_as_i64() {
    assert_eq!(patch_value_text("integerValue", "-7", None), Ok("{\"integerValue\":\"-7\"}".to_string()));
    assert_eq!(
        patch_value_text("integerValue", "abc", None),
        Err("Invalid integer: abc (invalid digit found in string)".to_string())
    );
    assert_eq!(
        patch_value_text("integerValue", "", None),
        Err("Invalid integer:  (cannot parse integer from empty string)".to_string())
    );
    assert_eq!(
        patch_value_text("integerValue", "9223372036854775808", None),
        Err("Invalid integer: 9223372036854775808 (number too large to fit in target type)".to_string())
    );
    let refused = core_patch("t", "p", "users/abc123", "integerValue", "loginCount", "abc", None, None);
    assert_eq!(refused.err(), Some("Invalid integer: abc (invalid digit found in string)".to_string()));
}
