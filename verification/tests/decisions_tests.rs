use firre::auth::{AuthResponse, RefreshResponse};
use firre::client::document_path_from_name;
use firre::firestore::count_from;
use firre::http::{accept_identity_body, firebase_error_from};
use firre::paging::{
    core_delete_collection, core_get_document_ids, keep_docs, read_list_page, Gather, ListPage, ListProgress,
    ListedDoc, PurgeProgress,
};

fn s(x: &str) -> Option<String> {
    Some(x.to_string())
}

#[test]
fn firebase_errors_from_members() {
    assert_eq!(firebase_error_from(None, None), Ok(()));
    assert_eq!(firebase_error_from(s("{}"), None), Err("Unknown Firebase error".to_string()));
    assert_eq!(firebase_error_from(s("{}"), s("QUOTA")), Err("QUOTA".to_string()));
}

#[test]
fn identity_bodies_are_accepted_or_refused() {
    assert_eq!(accept_identity_body("{}".to_string(), None, Ok(())), Ok("{}".to_string()));
    assert_eq!(
        accept_identity_body("x".to_string(), s("bad"), Err("E".to_string())),
        Err("Failed to parse response: bad".to_string())
    );
    assert_eq!(accept_identity_body("{}".to_string(), None, Err("E".to_string())), Err("E".to_string()));
}

#[test]
fn counts_from_members() {
    assert_eq!(count_from("t", None, s("42")), Ok(42));
    assert_eq!(count_from("t", None, s("-1")), Ok(-1));
    assert_eq!(count_from("t", s("oops"), s("42")), Err("Bad aggregation response: oops".to_string()));
    assert_eq!(count_from("[]", None, None), Err("Unexpected aggregation response shape: []".to_string()));
    assert_eq!(
        count_from("t", None, s("99999999999999999999")),
        Err("Failed to parse count: number too large to fit in target type".to_string())
    );
    assert_eq!(
        count_from("t", None, s("")),
        Err("Failed to parse count: cannot parse integer from empty string".to_string())
    );
}

#[test]
fn document_paths_from_members() {
    assert_eq!(
        document_path_from_name(None, s("projects/p/databases/(default)/documents/users/a")),
        Ok("users/a".to_string())
    );
    assert_eq!(document_path_from_name(s("bad"), s("x")), Err("Bad doc JSON: bad".to_string()));
    assert_eq!(document_path_from_name(None, None), Err("Missing document name".to_string()));
    assert_eq!(document_path_from_name(None, s("users/a")), Err("Malformed document name".to_string()));
    assert_eq!(document_path_from_name(None, s("/documents/")), Ok(String::new()));
}

#[test]
fn responses_from_members() {
    let r = AuthResponse::from_members("raw".to_string(), None, s("T"), None, s("e@x"), s("L"), s("60")).unwrap();
    assert_eq!((r.id_token.as_str(), r.refresh_token.as_str(), r.email.as_str()), ("T", "", "e@x"));
    assert_eq!((r.user_id.as_str(), r.expires_in.as_str(), r.raw.as_str()), ("L", "60", "raw"));
    assert_eq!(r.auth_header, "Bearer T");
    assert_eq!(
        AuthResponse::from_members("raw".to_string(), s("bad"), None, None, None, None, None).map(|_| ()),
        Err("bad".to_string())
    );
    let r = RefreshResponse::from_members("raw".to_string(), None, None, s("A"), None, None, None).unwrap();
    assert_eq!(r.id_token, "");
    assert_eq!(r.access_token, "A");
    assert_eq!(r.auth_header, "Bearer ");
}

#[test]
fn list_pages_are_read_and_kept() {
    let page = read_list_page("{\"documents\":[{\"name\":\"x/y/z\"},{\"other\":1},7],\"nextPageToken\":\"N\"}");
    assert_eq!(page.parse_failure, None);
    assert_eq!(page.next_page_token, s("N"));
    let docs = page.documents.unwrap();
    assert_eq!(docs.len(), 3);
    assert_eq!(docs[0].text, "{\"name\":\"x/y/z\"}");
    assert_eq!(docs[0].name, s("x/y/z"));
    assert_eq!(docs[1].name, None);
    assert_eq!(docs[2].text, "7");
    let mut ids = Vec::new();
    keep_docs(Gather::Ids, &docs, &mut ids);
    assert_eq!(ids, vec!["z"]);
    let mut names = vec!["first".to_string()];
    keep_docs(Gather::Names, &docs, &mut names);
    assert_eq!(names, vec!["first", "x/y/z"]);
    let mut texts = Vec::new();
    keep_docs(Gather::Texts, &docs, &mut texts);
    assert_eq!(texts.len(), 3);

    let page = read_list_page("{\"documents\":\"no\"}");
    assert!(page.documents.is_none());
    let page = read_list_page("nope");
    assert!(page.parse_failure.is_some());
    assert!(page.documents.is_none() && page.next_page_token.is_none());
}

#[test]
fn listings_take_pages_in() {
    let mut listing = core_get_document_ids("tok", "proj", "users", None);
    let page = ListPage {
        parse_failure: None,
        documents: Some(vec![ListedDoc { text: "{}".to_string(), name: s("a/b/c") }]),
        next_page_token: None,
    };
    assert!(matches!(listing.on_page(page), ListProgress::Finished));
    assert_eq!(listing.items, vec!["c"]);
    let bad = ListPage { parse_failure: s("eof"), documents: None, next_page_token: s("T") };
    match listing.on_page(bad) {
        ListProgress::Failed(e) => assert_eq!(e, "Bad list response: eof"),
        other => panic!("unexpected {other:?}"),
    }
    assert_eq!(listing.items, vec!["c"]);
}

#[test]
fn purges_take_pages_and_acknowledgements_in() {
    let mut purge = core_delete_collection("tok", "proj", "users", None);
    let page = ListPage {
        parse_failure: None,
        documents: Some(vec![
            ListedDoc { text: "{}".to_string(), name: s("n1") },
            ListedDoc { text: "{}".to_string(), name: None },
        ]),
        next_page_token: None,
    };
    assert!(matches!(purge.on_page(page), PurgeProgress::Send(_)));
    assert_eq!(purge.in_flight, vec!["n1"]);
    match purge.on_batch_done() {
        PurgeProgress::Done(r) => assert_eq!(r, Ok(1)),
        other => panic!("unexpected {other:?}"),
    }
    let mut purge = core_delete_collection("tok", "proj", "users", None);
    let empty = ListPage { parse_failure: None, documents: None, next_page_token: s("T") };
    match purge.on_page(empty) {
        PurgeProgress::Done(r) => assert_eq!(r, Ok(0)),
        other => panic!("unexpected {other:?}"),
    }
}
