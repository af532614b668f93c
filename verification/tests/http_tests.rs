use firre::http::{complete, firebase_error, HttpReply, ReplyWording};

fn received(status: u16, line: &str, body: &str) -> HttpReply {
    HttpReply::Received { status, status_line: line.to_string(), body: Ok(body.to_string()) }
}

#[test]
fn a_2xx_reply_gives_its_body() {
    assert_eq!(complete(ReplyWording::Standard, received(200, "200 OK", "{}")), Ok("{}".to_string()));
    assert_eq!(complete(ReplyWording::Standard, received(204, "204 No Content", "")), Ok(String::new()));
}

#[test]
fn a_failed_status_is_an_error_with_status_and_body() {
    assert_eq!(
        complete(ReplyWording::Standard, received(404, "404 Not Found", "nope")),
        Err("HTTP 404 Not Found: nope".to_string())
    );
    assert_eq!(
        complete(ReplyWording::IncrementCommit, received(403, "403 Forbidden", "denied")),
        Err("HTTP 403 Forbidden:denied".to_string())
    );
    assert_eq!(
        complete(ReplyWording::Standard, received(302, "302 Found", "")),
        Err("HTTP 302 Found: ".to_string())
    );
}

#[test]
fn an_unsent_request_is_worded_per_call() {
    let unsent = || HttpReply::Unsent("connection refused".to_string());
    assert_eq!(complete(ReplyWording::Standard, unsent()), Err("Request failed: connection refused".to_string()));
    assert_eq!(complete(ReplyWording::TimestampCommit, unsent()), Err("Request failed:connection refused".to_string()));
    assert_eq!(complete(ReplyWording::IncrementCommit, unsent()), Err("Request Failed: connection refused".to_string()));
    assert_eq!(complete(ReplyWording::FieldDelete, unsent()), Err("Request Failed: connection refused".to_string()));
    assert_eq!(complete(ReplyWording::Identity, unsent()), Err("Request failed: connection refused".to_string()));
}

#[test]
fn an_unreadable_body_is_worded_per_call() {
    let unread = || HttpReply::Received {
        status: 200,
        status_line: "200 OK".to_string(),
        body: Err("decoding".to_string()),
    };
    assert_eq!(complete(ReplyWording::Standard, unread()), Err("Failed to read response: decoding".to_string()));
    assert_eq!(complete(ReplyWording::FieldDelete, unread()), Err("Failed to read response".to_string()));
    assert_eq!(complete(ReplyWording::Identity, unread()), Err("Failed to parse response: decoding".to_string()));
}

#[test]
fn identity_replies_must_be_json_without_error() {
    let body = "{\"idToken\":\"abc\"}";
    assert_eq!(complete(ReplyWording::Identity, received(200, "200 OK", body)), Ok(body.to_string()));
    let bad = "not json";
    let msg = serde_json::from_str::<serde_json::Value>(bad).unwrap_err().to_string();
    assert_eq!(
        complete(ReplyWording::Identity, received(200, "200 OK", bad)),
        Err(format!("Failed to parse response: {msg}"))
    );
    assert_eq!(
        complete(ReplyWording::Identity, received(200, "200 OK", "{\"error\":{\"message\":\"TOKEN_EXPIRED\"}}")),
        Err("TOKEN_EXPIRED".to_string())
    );
    assert_eq!(complete(ReplyWording::Standard, received(200, "200 OK", bad)), Ok(bad.to_string()));
}

#[test]
fn firebase_error_reads_the_error_member() {
    assert_eq!(firebase_error("{\"ok\":true}"), Ok(()));
    assert_eq!(firebase_error("{\"error\":{\"message\":\"EMAIL_EXISTS\"}}"), Err("EMAIL_EXISTS".to_string()));
    assert_eq!(firebase_error("{\"error\":{\"code\":400}}"), Err("Unknown Firebase error".to_string()));
    assert_eq!(firebase_error("{\"error\":\"x\"}"), Err("Unknown Firebase error".to_string()));
    assert_eq!(firebase_error("{\"error\":null}"), Err("Unknown Firebase error".to_string()));
    assert_eq!(firebase_error("[1,2]"), Ok(()));
}
