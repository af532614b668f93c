use firre::http::{HttpMethod, HttpReply, RequestBody};
use firre::paging::{
    core_delete_collection, core_delete_collection_concurrent, core_get_collection, core_get_document_ids,
    core_get_documents, ListProgress, PurgeProgress,
};

const DOCS: &str = "https://firestore.googleapis.com/v1/projects/proj/databases/(default)/documents";
const NAMES: &str = "projects/proj/databases/(default)/documents";

fn ok(text: &str) -> HttpReply {
    HttpReply::Received { status: 200, status_line: "200 OK".to_string(), body: Ok(text.to_string()) }
}

fn status(code: u16, line: &str, text: &str) -> HttpReply {
    HttpReply::Received { status: code, status_line: line.to_string(), body: Ok(text.to_string()) }
}

fn doc(id: &str) -> String {
    format!("{{\"name\":\"{NAMES}/users/{id}\"}}")
}

#[test]
fn document_ids_page_through_the_collection() {
    let mut listing = core_get_document_ids("tok", "proj", "users", None);
    let first = listing.first_request();
    assert_eq!(first.url, format!("{DOCS}/users?pageSize=300&mask.fieldPaths=__name__"));
    assert_eq!(first.method, HttpMethod::Get);

    let page1 = format!("{{\"documents\":[{},{}],\"nextPageToken\":\"T1\"}}", doc("a"), doc("b"));
    match listing.on_reply(ok(&page1)) {
        ListProgress::Send(r) => {
            assert_eq!(r.url, format!("{DOCS}/users?pageSize=300&mask.fieldPaths=__name__&pageToken=T1"))
        },
        other => panic!("unexpected {other:?}"),
    }
    let page2 = format!("{{\"documents\":[{},{{\"noname\":1}}]}}", doc("c"));
    assert!(matches!(listing.on_reply(ok(&page2)), ListProgress::Finished));
    assert_eq!(listing.items, vec!["a", "b", "c"]);
}

#[test]
fn get_collection_gathers_documents_as_one_array() {
    let mut listing = core_get_collection("tok", "proj", "/users", 2, None);
    assert_eq!(listing.first_request().url, format!("{DOCS}/users?pageSize=2"));
    let page1 = "{\"documents\":[{\"name\":\"n1\",\"fields\":{}},{\"name\":\"n2\"}],\"nextPageToken\":\"P\"}";
    match listing.on_reply(ok(page1)) {
        ListProgress::Send(r) => assert_eq!(r.url, format!("{DOCS}/users?pageSize=2&pageToken=P")),
        other => panic!("unexpected {other:?}"),
    }
    assert!(matches!(listing.on_reply(ok("{}")), ListProgress::Finished));
    assert_eq!(listing.json_array(), "[{\"fields\":{},\"name\":\"n1\"},{\"name\":\"n2\"}]");
}

#[test]
fn an_empty_collection_is_an_empty_array() {
    let mut listing = core_get_collection("tok", "proj", "users", 300, None);
    assert!(matches!(listing.on_reply(ok("{}")), ListProgress::Finished));
    assert_eq!(listing.json_array(), "[]");
}

#[test]
fn get_documents_keeps_each_document_text() {
    let mut listing = core_get_documents("tok", "proj", "users", None);
    assert_eq!(listing.first_request().url, format!("{DOCS}/users?pageSize=300"));
    let page = format!("{{\"documents\":[{}]}}", doc("a"));
    assert!(matches!(listing.on_reply(ok(&page)), ListProgress::Finished));
    assert_eq!(listing.items, vec![doc("a")]);
}

#[test]
fn a_listing_stops_on_errors() {
    let mut listing = core_get_documents("tok", "proj", "users", None);
    match listing.on_reply(status(403, "403 Forbidden", "no")) {
        ListProgress::Failed(e) => assert_eq!(e, "HTTP 403 Forbidden: no"),
        other => panic!("unexpected {other:?}"),
    }
    let msg = serde_json::from_str::<serde_json::Value>("<html>").unwrap_err().to_string();
    match listing.on_reply(ok("<html>")) {
        ListProgress::Failed(e) => assert_eq!(e, format!("Bad list response: {msg}")),
        other => panic!("unexpected {other:?}"),
    }
    assert!(listing.items.is_empty());
}

fn batch_names(p: &PurgeProgress) -> Vec<String> {
    match p {
        PurgeProgress::Send(r) => match &r.body {
            RequestBody::Json(t) => {
                let v: serde_json::Value = serde_json::from_str(t).unwrap();
                v["writes"].as_array().unwrap().iter().map(|w| w["delete"].as_str().unwrap().to_string()).collect()
            },
            _ => panic!("not a batch"),
        },
        _ => panic!("not a send"),
    }
}

#[test]
fn delete_collection_batches_and_counts() {
    let mut purge = core_delete_collection("tok", "proj", "users", None);
    assert_eq!(purge.first_request().url, format!("{DOCS}/users?pageSize=300&mask.fieldPaths=__name__"));
    let page1 = format!("{{\"documents\":[{},{}],\"nextPageToken\":\"T\"}}", doc("a"), doc("b"));
    let p = purge.on_reply(ok(&page1));
    assert_eq!(batch_names(&p), vec![format!("{NAMES}/users/a"), format!("{NAMES}/users/b")]);
    match &p {
        PurgeProgress::Send(r) => assert_eq!(
            r.url,
            "https://firestore.googleapis.com/v1/projects/proj/databases/(default)/documents:batchWrite"
        ),
        _ => unreachable!(),
    }
    match purge.on_reply(ok("{}")) {
        PurgeProgress::Send(r) => {
            assert_eq!(r.url, format!("{DOCS}/users?pageSize=300&mask.fieldPaths=__name__&pageToken=T"))
        },
        other => panic!("unexpected {other:?}"),
    }
    match purge.on_reply(ok("{\"documents\":[]}")) {
        PurgeProgress::Done(r) => assert_eq!(r, Ok(2)),
        other => panic!("unexpected {other:?}"),
    }
}

#[test]
fn delete_collection_sends_at_most_500_names_per_batch() {
    let mut purge = core_delete_collection("tok", "proj", "users", None);
    let docs: Vec<String> = (0..600).map(|i| doc(&i.to_string())).collect();
    let page = format!("{{\"documents\":[{}]}}", docs.join(","));
    let p = purge.on_reply(ok(&page));
    assert_eq!(batch_names(&p).len(), 500);
    let p = purge.on_reply(ok("{}"));
    assert_eq!(batch_names(&p).len(), 100);
    match purge.on_reply(ok("{}")) {
        PurgeProgress::Done(r) => assert_eq!(r, Ok(600)),
        other => panic!("unexpected {other:?}"),
    }
}

#[test]
fn delete_collection_stops_on_a_failed_batch() {
    let mut purge = core_delete_collection("tok", "proj", "users", None);
    let page = format!("{{\"documents\":[{}]}}", doc("a"));
    let _ = purge.on_reply(ok(&page));
    match purge.on_reply(status(500, "500 Internal Server Error", "oops")) {
        PurgeProgress::Done(r) => assert_eq!(r, Err("HTTP 500 Internal Server Error: oops".to_string())),
        other => panic!("unexpected {other:?}"),
    }
}

#[test]
fn concurrent_delete_chunks_and_reports_failures() {
    let mut purge = core_delete_collection_concurrent("tok", "proj", "users", 2, None);
    assert_eq!(purge.listing.first_request().url, format!("{DOCS}/users?pageSize=300&mask.fieldPaths=__name__"));
    let page = format!("{{\"documents\":[{},{},{}]}}", doc("a"), doc("b"), doc("c"));
    assert!(matches!(purge.on_list_reply(ok(&page)), ListProgress::Finished));
    let chunk = purge.next_chunk().unwrap();
    assert_eq!(chunk.len(), 2);
    assert_eq!(chunk[0].method, HttpMethod::Delete);
    assert_eq!(chunk[0].url, format!("https://firestore.googleapis.com/v1/{NAMES}/users/a"));
    assert_eq!(chunk[1].url, format!("https://firestore.googleapis.com/v1/{NAMES}/users/b"));
    assert_eq!(purge.awaiting, 2);
    purge.on_chunk_replies(vec![ok(""), status(403, "403 Forbidden", "denied")]);
    assert_eq!(purge.awaiting, 0);
    let chunk = purge.next_chunk().unwrap();
    assert_eq!(chunk.len(), 1);
    purge.on_chunk_replies(vec![HttpReply::Unsent("timeout".to_string())]);
    assert!(purge.next_chunk().is_none());
    assert_eq!(purge.total, 1);
    assert_eq!(purge.outcome(), Err("2 deletes failed, first error: HTTP 403 Forbidden: denied".to_string()));
}

#[test]
fn concurrent_delete_counts_when_all_succeed() {
    let mut purge = core_delete_collection_concurrent("tok", "proj", "users", 20, None);
    let page = format!("{{\"documents\":[{},{}]}}", doc("a"), doc("b"));
    assert!(matches!(purge.on_list_reply(ok(&page)), ListProgress::Finished));
    let chunk = purge.next_chunk().unwrap();
    assert_eq!(chunk.len(), 2);
    purge.on_chunk_replies(vec![
        ok("{}"),
        HttpReply::Received { status: 200, status_line: "200 OK".to_string(), body: Err("reset".to_string()) },
    ]);
    assert!(purge.next_chunk().is_none());
    assert_eq!(purge.outcome(), Ok(2));
}

#[test]
fn concurrent_delete_waits_for_the_whole_listing() {
    let mut purge = core_delete_collection_concurrent("tok", "proj", "users", 5, None);
    let first = format!("{{\"documents\":[{}],\"nextPageToken\":\"p2\"}}", doc("a"));
    assert!(matches!(purge.on_list_reply(ok(&first)), ListProgress::Send(_)));
    assert!(!purge.listed);
    let last = format!("{{\"documents\":[{}]}}", doc("b"));
    assert!(matches!(purge.on_list_reply(ok(&last)), ListProgress::Finished));
    assert!(purge.listed);
    let chunk = purge.next_chunk().unwrap();
    assert_eq!(chunk.len(), 2);
    purge.on_chunk_replies(vec![ok("{}"), ok("{}")]);
    assert!(purge.next_chunk().is_none());
    assert_eq!(purge.outcome(), Ok(2));
}

#[test]
fn concurrent_delete_of_an_empty_collection_deletes_nothing() {
    let mut purge = core_delete_collection_concurrent("tok", "proj", "users", 3, None);
    assert!(matches!(purge.on_list_reply(ok("{}")), ListProgress::Finished));
    assert!(purge.next_chunk().is_none());
    assert_eq!(purge.outcome(), Ok(0));
}
