//! The Firestore REST calls: their URLs, headers and JSON bodies.

use std::collections::HashMap;
use vstd::prelude::*;

use crate::http::{
    complete, headers_view, pairs, reply_outcome, result_text, BodyView, Call, HttpMethod, HttpReply, HttpRequest,
    ReplyWording, RequestBody, RequestView,
};
use crate::json::{
    json_as_str, json_check, json_element, json_get_element, json_get_member, json_member, json_parse_failure,
    json_quote, json_string_content, json_string_literal, opt_text, texts,
};
use crate::text::{
    decimal, find, find_str, i64_text, int_failure_message, join, join_texts, last_index, last_segment,
    last_segment_of, lemma_find_in_bounds, lemma_last_index_in_bounds, occurs_at, parse_i64, parse_i64_spec,
    rfind_char, same_text, trim_end, trim_end_char, trim_start, trim_start_char,
};

verus! {

/// Whether `chrono::DateTime::parse_from_rfc3339` accepts `s`.
pub uninterp spec fn rfc3339_accepts(s: Seq<char>) -> bool;

/// Calls `chrono::DateTime::parse_from_rfc3339` on `s`; claims that it
/// succeeds exactly when `rfc3339_accepts(s)`.
#[verifier::external_body]
fn rfc3339_check(s: &str) -> (res: bool)
    ensures
        res == rfc3339_accepts(s@),
{
    chrono::DateTime::parse_from_rfc3339(s).is_ok()
}

/// The URL of the document or collection at `path` in `project`: the path's
/// leading slashes dropped.
pub open spec fn document_url(project: Seq<char>, path: Seq<char>) -> Seq<char> {
    "https://firestore.googleapis.com/v1/projects/"@ + project + "/databases/(default)/documents/"@
        + trim_start(path, '/')
}

/// Builds the URL of the document or collection at `path` in `project`.
pub fn build_url(project: &str, path: &str) -> (res: String)
    ensures
        res@ == document_url(project@, path@),
{
    let trimmed = trim_start_char(path, '/');
    String::from_str("https://firestore.googleapis.com/v1/projects/").concat(project).concat(
        "/databases/(default)/documents/",
    ).concat(trimmed.as_str())
}

/// The resource name of the document at `path` in `project`, as commits name it.
pub open spec fn document_name(project: Seq<char>, path: Seq<char>) -> Seq<char> {
    "projects/"@ + project + "/databases/(default)/documents/"@ + trim_start(path, '/')
}

fn document_name_text(project: &str, path: &str) -> (res: String)
    ensures
        res@ == document_name(project@, path@),
{
    let trimmed = trim_start_char(path, '/');
    String::from_str("projects/").concat(project).concat("/databases/(default)/documents/").concat(
        trimmed.as_str(),
    )
}

/// The URL of the commit endpoint of `project`.
pub open spec fn commit_url(project: Seq<char>) -> Seq<char> {
    "https://firestore.googleapis.com/v1/projects/"@ + project + "/databases/(default)/documents:commit"@
}

/// The URL of the batch-write endpoint of `project`.
pub open spec fn batch_write_url(project: Seq<char>) -> Seq<char> {
    "https://firestore.googleapis.com/v1/projects/"@ + project
        + "/databases/(default)/documents:batchWrite"@
}

/// The header that carries `token` as a bearer credential.
pub open spec fn bearer_header(token: Seq<char>) -> (Seq<char>, Seq<char>) {
    ("Authorization"@, "Bearer "@ + token)
}

/// The header that announces a JSON body.
pub open spec fn json_content_header() -> (Seq<char>, Seq<char>) {
    ("Content-Type"@, "application/json"@)
}

fn bearer(token: &str) -> (res: (String, String))
    ensures
        (res.0@, res.1@) == bearer_header(token@),
{
    (String::from_str("Authorization"), String::from_str("Bearer ").concat(token))
}

fn json_content() -> (res: (String, String))
    ensures
        (res.0@, res.1@) == json_content_header(),
{
    (String::from_str("Content-Type"), String::from_str("application/json"))
}

/// A request with only the bearer header and no body.
pub open spec fn bare_request(
    method: HttpMethod,
    url: Seq<char>,
    token: Seq<char>,
    headers: Option<HashMap<String, String>>,
) -> RequestView {
    RequestView {
        method,
        url,
        headers: seq![bearer_header(token)],
        extra_headers: headers_view(headers),
        body: BodyView::Empty,
    }
}

/// A request with the bearer header, a JSON content type and a JSON body.
pub open spec fn json_request(
    method: HttpMethod,
    url: Seq<char>,
    token: Seq<char>,
    headers: Option<HashMap<String, String>>,
    body: Seq<char>,
) -> RequestView {
    RequestView {
        method,
        url,
        headers: seq![bearer_header(token), json_content_header()],
        extra_headers: headers_view(headers),
        body: BodyView::Json(body),
    }
}

pub(crate) fn make_bare_request(
    method: HttpMethod,
    url: String,
    token: &str,
    headers: Option<HashMap<String, String>>,
) -> (res: HttpRequest)
    ensures
        res@ == bare_request(method, url@, token@, headers),
{
    let mut hs: Vec<(String, String)> = Vec::new();
    hs.push(bearer(token));
    proof {
        assert(pairs(hs@) =~= seq![bearer_header(token@)]);
    }
    HttpRequest { method, url, headers: hs, extra_headers: headers, body: RequestBody::Empty }
}

pub(crate) fn make_json_request(
    method: HttpMethod,
    url: String,
    token: &str,
    headers: Option<HashMap<String, String>>,
    body: String,
) -> (res: HttpRequest)
    ensures
        res@ == json_request(method, url@, token@, headers, body@),
{
    let mut hs: Vec<(String, String)> = Vec::new();
    hs.push(bearer(token));
    hs.push(json_content());
    proof {
        assert(pairs(hs@) =~= seq![bearer_header(token@), json_content_header()]);
    }
    HttpRequest { method, url, headers: hs, extra_headers: headers, body: RequestBody::Json(body) }
}

/// Fetches the document at `path`.
pub fn core_get(
    auth_token: &str,
    project: &str,
    path: &str,
    headers: Option<HashMap<String, String>>,
) -> (res: Call)
    ensures
        res.request@ == bare_request(HttpMethod::Get, document_url(project@, path@), auth_token@, headers),
        res.wording == ReplyWording::Standard,
{
    let url = build_url(project, path);
    Call { request: make_bare_request(HttpMethod::Get, url, auth_token, headers), wording: ReplyWording::Standard }
}

/// Deletes the document at `path`.
pub fn core_delete_document(
    auth_token: &str,
    project: &str,
    path: &str,
    headers: Option<HashMap<String, String>>,
) -> (res: Call)
    ensures
        res.request@ == bare_request(HttpMethod::Delete, document_url(project@, path@), auth_token@, headers),
        res.wording == ReplyWording::Standard,
{
    let url = build_url(project, path);
    Call { request: make_bare_request(HttpMethod::Delete, url, auth_token, headers), wording: ReplyWording::Standard }
}

/// The URL of one page of a name-only listing of `collection_path`.
pub open spec fn list_documents_url(
    project: Seq<char>,
    collection_path: Seq<char>,
    page_size: int,
    page_token: Option<Seq<char>>,
) -> Seq<char> {
    let base = document_url(project, collection_path) + "?pageSize="@ + decimal(page_size)
        + "&mask.fieldPaths=__name__"@;
    match page_token {
        Some(t) => base + "&pageToken="@ + t,
        None => base,
    }
}

/// The view of an optional borrowed text.
pub open spec fn opt_str(o: Option<&str>) -> Option<Seq<char>> {
    match o {
        Some(s) => Some(s@),
        None => None,
    }
}

/// Lists one page of the documents of a collection, by name only.
pub fn core_list_documents(
    auth_token: &str,
    project: &str,
    collection_path: &str,
    page_size: i32,
    page_token: Option<&str>,
    headers: Option<HashMap<String, String>>,
) -> (res: Call)
    ensures
        res.request@ == bare_request(
            HttpMethod::Get,
            list_documents_url(project@, collection_path@, page_size as int, opt_str(page_token)),
            auth_token@,
            headers,
        ),
        res.wording == ReplyWording::Standard,
{
    let mut url = build_url(project, collection_path).concat("?pageSize=").concat(
        i64_text(page_size as i64).as_str(),
    ).concat("&mask.fieldPaths=__name__");
    match page_token {
        Some(t) => {
            url = url.concat("&pageToken=").concat(t);
        },
        None => {},
    }
    Call { request: make_bare_request(HttpMethod::Get, url, auth_token, headers), wording: ReplyWording::Standard }
}

/// The JSON body of a commit that applies one field transform to a document.
pub open spec fn commit_body(doc_name: Seq<char>, field_path: Seq<char>, transform: Seq<char>) -> Seq<char> {
    "{\"writes\":[{\"transform\":{\"document\":"@ + json_string_literal(doc_name)
        + ",\"fieldTransforms\":[{\"fieldPath\":"@ + json_string_literal(field_path) + ","@ + transform
        + "}]}}]}"@
}

fn commit_body_text(doc_name: &str, field_path: &str, transform: &str) -> (res: String)
    ensures
        res@ == commit_body(doc_name@, field_path@, transform@),
{
    String::from_str("{\"writes\":[{\"transform\":{\"document\":").concat(json_quote(doc_name).as_str())
        .concat(",\"fieldTransforms\":[{\"fieldPath\":").concat(json_quote(field_path).as_str()).concat(",")
        .concat(transform).concat("}]}}]}")
}

/// The field transform that sets a field to the time the server got the request.
pub open spec fn server_time_transform() -> Seq<char> {
    "\"setToServerValue\":\"REQUEST_TIME\""@
}

/// Sets the field `field_path` of the document at `path` to the server's
/// request time.
pub fn core_server_timestamp(
    auth_token: &str,
    project: &str,
    path: &str,
    field_path: &str,
    headers: Option<HashMap<String, String>>,
) -> (res: Call)
    ensures
        res.request@ == json_request(
            HttpMethod::Post,
            commit_url(project@),
            auth_token@,
            headers,
            commit_body(document_name(project@, path@), field_path@, server_time_transform()),
        ),
        res.wording == ReplyWording::TimestampCommit,
{
    let url = String::from_str("https://firestore.googleapis.com/v1/projects/").concat(project).concat(
        "/databases/(default)/documents:commit",
    );
    let name = document_name_text(project, path);
    let body = commit_body_text(name.as_str(), field_path, "\"setToServerValue\":\"REQUEST_TIME\"");
    Call {
        request: make_json_request(HttpMethod::Post, url, auth_token, headers, body),
        wording: ReplyWording::TimestampCommit,
    }
}

/// The amount of an increment: a whole number, sent as a JSON integer, or
/// any other number, given as the JSON text of the number.
#[derive(Debug)]
pub enum IncrementAmount {
    Integer(i64),
    Double(String),
}

/// The JSON value that states an increment amount.
pub open spec fn increment_value(amount: IncrementAmount) -> Seq<char> {
    match amount {
        IncrementAmount::Integer(n) => "{\"integerValue\":"@ + decimal(n as int) + "}"@,
        IncrementAmount::Double(d) => "{\"doubleValue\":"@ + d@ + "}"@,
    }
}

/// Adds `amount` to the field `field_path` of the document at `path`.
pub fn core_field_increment(
    auth_token: &str,
    project: &str,
    path: &str,
    field_path: &str,
    amount: IncrementAmount,
    headers: Option<HashMap<String, String>>,
) -> (res: Call)
    ensures
        res.request@ == json_request(
            HttpMethod::Post,
            commit_url(project@),
            auth_token@,
            headers,
            commit_body(
                document_name(project@, path@),
                field_path@,
                "\"increment\":"@ + increment_value(amount),
            ),
        ),
        res.wording == ReplyWording::IncrementCommit,
{
    let value = match &amount {
        IncrementAmount::Integer(n) => String::from_str("{\"integerValue\":").concat(i64_text(*n).as_str()).concat("}"),
        IncrementAmount::Double(d) => String::from_str("{\"doubleValue\":").concat(d.as_str()).concat("}"),
    };
    let transform = String::from_str("\"increment\":").concat(value.as_str());
    let name = document_name_text(project, path);
    let body = commit_body_text(name.as_str(), field_path, transform.as_str());
    let url = String::from_str("https://firestore.googleapis.com/v1/projects/").concat(project).concat(
        "/databases/(default)/documents:commit",
    );
    Call {
        request: make_json_request(HttpMethod::Post, url, auth_token, headers, body),
        wording: ReplyWording::IncrementCommit,
    }
}

/// The URL of a patch of the field `field_path` of the document at `path`.
pub open spec fn field_patch_url(project: Seq<char>, path: Seq<char>, field_path: Seq<char>) -> Seq<char> {
    document_url(project, path) + "?updateMask.fieldPaths="@ + field_path
}

/// Removes the field `field_path` from the document at `path`: a patch that
/// names the field in its mask and leaves it out of the body.
pub fn core_delete_field(
    auth_token: &str,
    project: &str,
    path: &str,
    field_path: &str,
    headers: Option<HashMap<String, String>>,
) -> (res: Call)
    ensures
        res.request@ == (RequestView {
            method: HttpMethod::Patch,
            url: field_patch_url(project@, path@, field_path@),
            headers: seq![bearer_header(auth_token@), ("Content-Type"@, "application-json"@)],
            extra_headers: headers_view(headers),
            body: BodyView::Json("{\"fields\":{}}"@),
        }),
        res.wording == ReplyWording::FieldDelete,
{
    let url = build_url(project, path).concat("?updateMask.fieldPaths=").concat(field_path);
    let mut hs: Vec<(String, String)> = Vec::new();
    hs.push(bearer(auth_token));
    hs.push((String::from_str("Content-Type"), String::from_str("application-json")));
    proof {
        assert(pairs(hs@) =~= seq![bearer_header(auth_token@), ("Content-Type"@, "application-json"@)]);
    }
    Call {
        request: HttpRequest {
            method: HttpMethod::Patch,
            url,
            headers: hs,
            extra_headers: headers,
            body: RequestBody::Json(String::from_str("{\"fields\":{}}")),
        },
        wording: ReplyWording::FieldDelete,
    }
}


/// The JSON value, typed as Firestore wants it, that a patch writes; or why
/// the type or the value is refused. An `integerValue` must read as an `i64`
/// (as `str::parse::<i64>` reads it) and is sent as the text given. `double_literal` is the JSON number that
/// `field_value` denotes when it reads as a floating-point number.
pub open spec fn patch_value(
    field_type: Seq<char>,
    field_value: Seq<char>,
    double_literal: Option<Seq<char>>,
) -> Result<Seq<char>, Seq<char>> {
    if field_type == "integerValue"@ {
        match parse_i64_spec(field_value) {
            Ok(_) => Ok("{\"integerValue\":"@ + json_string_literal(field_value) + "}"@),
            Err(f) => Err("Invalid integer: "@ + field_value + " ("@ + int_failure_message(f) + ")"@),
        }
    } else if field_type == "doubleValue"@ {
        match double_literal {
            Some(d) => Ok("{\"doubleValue\":"@ + d + "}"@),
            None => Err("Invalid double: "@ + field_value),
        }
    } else if field_type == "booleanValue"@ {
        if field_value == "true"@ {
            Ok("{\"booleanValue\":true}"@)
        } else if field_value == "false"@ {
            Ok("{\"booleanValue\":false}"@)
        } else {
            Err("Invalid boolean: "@ + field_value)
        }
    } else if field_type == "stringValue"@ {
        Ok("{\"stringValue\":"@ + json_string_literal(field_value) + "}"@)
    } else if field_type == "nullValue"@ {
        Ok("{\"nullValue\":null}"@)
    } else if field_type == "timestampValue"@ {
        if rfc3339_accepts(field_value) {
            Ok("{\"timestampValue\":"@ + json_string_literal(field_value) + "}"@)
        } else {
            Err("Invalid timestampValue: '"@ + field_value
                + "' must be RFC3339 format e.g. 2026-03-19T15:37:04.272Z"@)
        }
    } else {
        Err("Invalid field type: "@ + field_type)
    }
}

/// Builds the typed JSON value that a patch writes, or refuses the type or value.
pub fn patch_value_text(field_type: &str, field_value: &str, double_literal: Option<String>) -> (res: Result<
    String,
    String,
>)
    ensures
        result_text(res) == patch_value(field_type@, field_value@, opt_text(double_literal)),
{
    if same_text(field_type, "integerValue") {
        match parse_i64(field_value) {
            Ok(_) => Ok(String::from_str("{\"integerValue\":").concat(json_quote(field_value).as_str()).concat("}")),
            Err(e) => Err(String::from_str("Invalid integer: ").concat(field_value).concat(" (").concat(e.as_str()).concat(")")),
        }
    } else if same_text(field_type, "doubleValue") {
        match double_literal {
            Some(d) => Ok(String::from_str("{\"doubleValue\":").concat(d.as_str()).concat("}")),
            None => Err(String::from_str("Invalid double: ").concat(field_value)),
        }
    } else if same_text(field_type, "booleanValue") {
        if same_text(field_value, "true") {
            Ok(String::from_str("{\"booleanValue\":true}"))
        } else if same_text(field_value, "false") {
            Ok(String::from_str("{\"booleanValue\":false}"))
        } else {
            Err(String::from_str("Invalid boolean: ").concat(field_value))
        }
    } else if same_text(field_type, "stringValue") {
        Ok(String::from_str("{\"stringValue\":").concat(json_quote(field_value).as_str()).concat("}"))
    } else if same_text(field_type, "nullValue") {
        Ok(String::from_str("{\"nullValue\":null}"))
    } else if same_text(field_type, "timestampValue") {
        if rfc3339_check(field_value) {
            Ok(String::from_str("{\"timestampValue\":").concat(json_quote(field_value).as_str()).concat("}"))
        } else {
            Err(String::from_str("Invalid timestampValue: '").concat(field_value).concat(
                "' must be RFC3339 format e.g. 2026-03-19T15:37:04.272Z",
            ))
        }
    } else {
        Err(String::from_str("Invalid field type: ").concat(field_type))
    }
}

/// The `fields` object that sets the dotted `field_path` to `value`: each
/// dot opens a nested `mapValue`.
pub open spec fn field_tree(field_path: Seq<char>, value: Seq<char>) -> Seq<char>
    decreases field_path.len(),
{
    match find(field_path, seq!['.']) {
        Some(i) => if 0 <= i < field_path.len() {
            "{"@ + json_string_literal(field_path.take(i)) + ":{\"mapValue\":{\"fields\":"@ + field_tree(
                field_path.skip(i + 1),
                value,
            ) + "}}}"@
        } else {
            "{"@ + json_string_literal(field_path) + ":"@ + value + "}"@
        },
        None => "{"@ + json_string_literal(field_path) + ":"@ + value + "}"@,
    }
}

/// Builds the `fields` object that sets the dotted `field_path` to `value`.
pub fn build_field(field_path: &str, value: &str) -> (res: String)
    ensures
        res@ == field_tree(field_path@, value@),
    decreases field_path@.len(),
{
    proof {
        reveal_strlit(".");
        assert("."@ =~= seq!['.']);
        lemma_find_in_bounds(field_path@, seq!['.'], 0);
    }
    match find_str(field_path, ".") {
        Some(i) => {
            assert(i < field_path@.len()) by {
                assert(occurs_at(field_path@, seq!['.'], i as int));
            }
            let n = field_path.unicode_len();
            let head = field_path.substring_char(0, i);
            let rest = field_path.substring_char(i + 1, n);
            proof {
                assert(head@ =~= field_path@.take(i as int));
                assert(rest@ =~= field_path@.skip(i + 1));
            }
            let inner = build_field(rest, value);
            String::from_str("{").concat(json_quote(head).as_str()).concat(":{\"mapValue\":{\"fields\":").concat(
                inner.as_str(),
            ).concat("}}}")
        },
        None => String::from_str("{").concat(json_quote(field_path).as_str()).concat(":").concat(value).concat(
            "}",
        ),
    }
}

/// Writes the field `field_path` of the document at `path`, typed by
/// `field_type` (`stringValue`, `integerValue`, `doubleValue`,
/// `booleanValue`, `nullValue` or `timestampValue`), from the text
/// `field_value`; a dotted path writes into nested maps. Refuses an unknown
/// type or a value that does not read as the type. `double_literal` is the
/// JSON number that `field_value` denotes when it reads as a floating-point
/// number.
pub fn core_patch(
    auth_token: &str,
    project: &str,
    path: &str,
    field_type: &str,
    field_path: &str,
    field_value: &str,
    double_literal: Option<String>,
    headers: Option<HashMap<String, String>>,
) -> (res: Result<Call, String>)
    ensures
        match patch_value(field_type@, field_value@, opt_text(double_literal)) {
            Ok(v) => res matches Ok(c) && c.wording == ReplyWording::Standard && c.request@ == json_request(
                HttpMethod::Patch,
                field_patch_url(project@, path@, field_path@),
                auth_token@,
                headers,
                "{\"fields\":"@ + field_tree(field_path@, v) + "}"@,
            ),
            Err(m) => res matches Err(e) && e@ == m,
        },
{
    let url = build_url(project, path).concat("?updateMask.fieldPaths=").concat(field_path);
    let value = match patch_value_text(field_type, field_value, double_literal) {
        Ok(v) => v,
        Err(e) => return Err(e),
    };
    let fields = build_field(field_path, value.as_str());
    let body = String::from_str("{\"fields\":").concat(fields.as_str()).concat("}");
    Ok(
        Call {
            request: make_json_request(HttpMethod::Patch, url, auth_token, headers, body),
            wording: ReplyWording::Standard,
        },
    )
}

/// The write that deletes the document named `name`.
pub open spec fn delete_write(name: Seq<char>) -> Seq<char> {
    "{\"delete\":"@ + json_string_literal(name) + "}"@
}

/// The body of a batch write that deletes the documents `names`.
pub open spec fn batch_delete_body(names: Seq<Seq<char>>) -> Seq<char> {
    "{\"writes\":["@ + join(names.map_values(|n: Seq<char>| delete_write(n)), ","@) + "]}"@
}

/// Deletes the documents with the full resource names `names`
/// (`projects/.../documents/...`) in one batch write; the service takes at
/// most 500 per call.
pub fn core_batch_delete(
    auth_token: &str,
    project: &str,
    document_names: &[String],
    headers: Option<HashMap<String, String>>,
) -> (res: Call)
    ensures
        res.request@ == json_request(
            HttpMethod::Post,
            batch_write_url(project@),
            auth_token@,
            headers,
            batch_delete_body(texts(document_names@)),
        ),
        res.wording == ReplyWording::Standard,
{
    let mut writes: Vec<String> = Vec::new();
    let n = document_names.len();
    let mut i: usize = 0;
    while i < n
        invariant
            n == document_names@.len(),
            i <= n,
            writes@.len() == i,
            forall|j: int| 0 <= j < i ==> #[trigger] writes@[j]@ == delete_write(document_names@[j]@),
        decreases n - i,
    {
        let w = String::from_str("{\"delete\":").concat(json_quote(document_names[i].as_str()).as_str()).concat("}");
        writes.push(w);
        i = i + 1;
    }
    proof {
        assert(writes@.map_values(|s: String| s@) =~= texts(document_names@).map_values(
            |n: Seq<char>| delete_write(n),
        ));
    }
    let body = String::from_str("{\"writes\":[").concat(join_texts(&writes, ",").as_str()).concat("]}");
    let url = String::from_str("https://firestore.googleapis.com/v1/projects/").concat(project).concat(
        "/databases/(default)/documents:batchWrite",
    );
    Call {
        request: make_json_request(HttpMethod::Post, url, auth_token, headers, body),
        wording: ReplyWording::Standard,
    }
}

/// The id of the collection at `collection_path`: its last segment.
pub open spec fn count_collection_id(collection_path: Seq<char>) -> Seq<char> {
    last_segment(trim_both_slashes(collection_path), '/')
}

/// `collection_path` without leading or trailing slashes.
pub open spec fn trim_both_slashes(collection_path: Seq<char>) -> Seq<char> {
    trim_end(trim_start(collection_path, '/'), '/')
}

/// The path of the document that holds the collection at `collection_path`,
/// or the empty text for a top-level collection.
pub open spec fn count_parent(collection_path: Seq<char>) -> Seq<char> {
    let t = trim_both_slashes(collection_path);
    match last_index(t, '/') {
        Some(i) => t.take(i),
        None => Seq::empty(),
    }
}

/// The URL of the aggregation query that counts the documents of the
/// collection at `collection_path`.
pub open spec fn count_url(project: Seq<char>, collection_path: Seq<char>) -> Seq<char> {
    trim_end(
        "https://firestore.googleapis.com/v1/projects/"@ + project + "/databases/(default)/documents/"@
            + count_parent(collection_path),
        '/',
    ) + ":runAggregationQuery"@
}

/// The body of the aggregation query that counts the collection `collection_id`.
pub open spec fn count_body(collection_id: Seq<char>) -> Seq<char> {
    "{\"structuredAggregationQuery\":{\"aggregations\":[{\"alias\":\"count\",\"count\":{}}],\"structuredQuery\":{\"from\":[{\"collectionId\":"@
        + json_string_literal(collection_id) + "}]}}}"@
}

/// Counts the documents of the collection at `collection_path` with a COUNT
/// aggregation query; `finish_count` reads the reply.
pub fn core_count_documents(
    auth_token: &str,
    project: &str,
    collection_path: &str,
    headers: Option<HashMap<String, String>>,
) -> (res: Call)
    ensures
        res.request@ == json_request(
            HttpMethod::Post,
            count_url(project@, collection_path@),
            auth_token@,
            headers,
            count_body(count_collection_id(collection_path@)),
        ),
        res.wording == ReplyWording::Standard,
{
    let front = trim_start_char(collection_path, '/');
    let trimmed = trim_end_char(front.as_str(), '/');
    let collection_id = last_segment_of(trimmed.as_str(), '/');
    let parent = match rfind_char(trimmed.as_str(), '/') {
        Some(i) => {
            proof {
                assert(i < trimmed@.len()) by {
                    lemma_last_index_in_bounds(trimmed@, '/');
                }
            }
            String::from_str(trimmed.as_str().substring_char(0, i))
        },
        None => String::new(),
    };
    proof {
        assert(parent@ =~= count_parent(collection_path@));
    }
    let parent_url = String::from_str("https://firestore.googleapis.com/v1/projects/").concat(project).concat(
        "/databases/(default)/documents/",
    ).concat(parent.as_str());
    let url = trim_end_char(parent_url.as_str(), '/').concat(":runAggregationQuery");
    let body = String::from_str(
        "{\"structuredAggregationQuery\":{\"aggregations\":[{\"alias\":\"count\",\"count\":{}}],\"structuredQuery\":{\"from\":[{\"collectionId\":",
    ).concat(json_quote(collection_id.as_str()).as_str()).concat("}]}}}");
    Call {
        request: make_json_request(HttpMethod::Post, url, auth_token, headers, body),
        wording: ReplyWording::Standard,
    }
}

/// The text of the count in an aggregation reply:
/// `[0].result.aggregateFields.count.integerValue`.
pub open spec fn count_text(text: Seq<char>) -> Option<Seq<char>> {
    match json_element(text, 0) {
        None => None,
        Some(first) => match json_member(first, "result"@) {
            None => None,
            Some(r) => match json_member(r, "aggregateFields"@) {
                None => None,
                Some(af) => match json_member(af, "count"@) {
                    None => None,
                    Some(c) => match json_member(c, "integerValue"@) {
                        None => None,
                        Some(v) => json_string_content(v),
                    },
                },
            },
        },
    }
}

/// What the reply text of a count query gives, from the parser's verdict
/// on it and the text of its count: the count, or why it cannot be read.
pub open spec fn count_verdict(
    text: Seq<char>,
    parse_failure: Option<Seq<char>>,
    count: Option<Seq<char>>,
) -> Result<int, Seq<char>> {
    match parse_failure {
        Some(e) => Err("Bad aggregation response: "@ + e),
        None => match count {
            None => Err("Unexpected aggregation response shape: "@ + text),
            Some(c) => match parse_i64_spec(c) {
                Ok(v) => Ok(v),
                Err(f) => Err("Failed to parse count: "@ + int_failure_message(f)),
            },
        },
    }
}

/// What the reply text of a count query gives: the count, or why it cannot be read.
pub open spec fn count_outcome(text: Seq<char>) -> Result<int, Seq<char>> {
    count_verdict(text, json_parse_failure(text), count_text(text))
}

/// Decides the reply text of a count query from the parser's verdict on it
/// and the text of its count.
pub fn count_from(text: &str, parse_failure: Option<String>, count: Option<String>) -> (res: Result<i64, String>)
    ensures
        match count_verdict(text@, opt_text(parse_failure), opt_text(count)) {
            Ok(v) => res == Ok::<i64, String>(v as i64),
            Err(m) => res matches Err(e) && e@ == m,
        },
{
    match parse_failure {
        Some(e) => return Err(String::from_str("Bad aggregation response: ").concat(e.as_str())),
        None => {},
    }
    match count {
        None => Err(String::from_str("Unexpected aggregation response shape: ").concat(text)),
        Some(c) => match parse_i64(c.as_str()) {
            Ok(v) => Ok(v),
            Err(e) => Err(String::from_str("Failed to parse count: ").concat(e.as_str())),
        },
    }
}

fn count_text_of(text: &str) -> (res: Option<String>)
    ensures
        opt_text(res) == count_text(text@),
{
    let first = match json_get_element(text, 0) {
        Some(f) => f,
        None => return None,
    };
    let r = match json_get_member(first.as_str(), "result") {
        Some(x) => x,
        None => return None,
    };
    let af = match json_get_member(r.as_str(), "aggregateFields") {
        Some(x) => x,
        None => return None,
    };
    let c = match json_get_member(af.as_str(), "count") {
        Some(x) => x,
        None => return None,
    };
    let v = match json_get_member(c.as_str(), "integerValue") {
        Some(x) => x,
        None => return None,
    };
    json_as_str(v.as_str())
}

/// Reads the reply of a count query: the count of documents.
pub fn finish_count(reply: HttpReply) -> (res: Result<i64, String>)
    ensures
        match reply_outcome(ReplyWording::Standard, reply) {
            Err(m) => res matches Err(e) && e@ == m,
            Ok(text) => match count_outcome(text) {
                Ok(v) => res == Ok::<i64, String>(v as i64),
                Err(m) => res matches Err(e) && e@ == m,
            },
        },
{
    let text = match complete(ReplyWording::Standard, reply) {
        Ok(t) => t,
        Err(e) => return Err(e),
    };
    let parse_failure = json_check(text.as_str());
    let count = count_text_of(text.as_str());
    count_from(text.as_str(), parse_failure, count)
}

} // verus!
