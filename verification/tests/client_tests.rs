use firre::client::{document_path_from, Collection, Document, Field, FirestoreClient, FirestoreResponse};
use firre::firestore::IncrementAmount;
use firre::http::{HttpMethod, RequestBody};

const DOCS: &str = "https://firestore.googleapis.com/v1/projects/proj/databases/(default)/documents";

#[test]
fn collection_doc_is_the_same_reference_as_client_doc() {
    let store = FirestoreClient::new("tok".to_string(), "proj".to_string());
    let a = store.collection("users".to_string()).doc("abc123".to_string());
    let b = store.doc("users/abc123".to_string());
    assert_eq!(a.path, b.path);
    assert_eq!(a.auth_token, b.auth_token);
    assert_eq!(a.project, b.project);
    assert!(a.raw.is_none() && b.raw.is_none());
    let c = store.collection("users//".to_string()).doc("abc123".to_string());
    assert_eq!(c.path, "users/abc123");
}

#[test]
fn references_chain_into_subcollections_and_fields() {
    let doc = Document::new("tok".to_string(), "proj".to_string(), "users/abc/".to_string());
    let orders = doc.collection("orders".to_string());
    assert_eq!(orders.path, "users/abc/orders");
    assert_eq!(orders.doc("o1".to_string()).path, "users/abc/orders/o1");
    let field = doc.field("loginCount".to_string());
    assert_eq!(field.path, "users/abc/");
    assert_eq!(field.field_name, "loginCount");
    let f2 = Field::new("tok", "proj", "users/abc", "loginCount");
    let inc = f2.increment(IncrementAmount::Integer(1), None);
    assert!(matches!(&inc.request.body, RequestBody::Json(t) if t.contains("\"fieldPath\":\"loginCount\",\"increment\":{\"integerValue\":1}")));
    assert_eq!(f2.server_timestamp(None).request.method, HttpMethod::Post);
    assert_eq!(f2.delete(None).request.url, format!("{DOCS}/users/abc?updateMask.fieldPaths=loginCount"));
}

#[test]
fn document_calls_target_the_document() {
    let doc = Document::new("tok".to_string(), "proj".to_string(), "users/abc".to_string());
    assert_eq!(doc.get(None).request.url, format!("{DOCS}/users/abc"));
    assert_eq!(doc.delete(None).request.method, HttpMethod::Delete);
    let patch = doc.patch("stringValue", "displayName", "name", None, None).unwrap();
    assert!(matches!(&patch.request.body, RequestBody::Json(t) if t == "{\"fields\":{\"displayName\":{\"stringValue\":\"name\"}}}"));
    assert_eq!(doc.patch("x", "y", "z", None, None).map(|_| ()), Err("Invalid field type: x".to_string()));
}

#[test]
fn collection_calls_target_the_collection() {
    let col = Collection::new("tok".to_string(), "proj".to_string(), "users".to_string());
    assert_eq!(col.get(300, None).first_request().url, format!("{DOCS}/users?pageSize=300"));
    assert_eq!(
        col.get_document_ids(None).first_request().url,
        format!("{DOCS}/users?pageSize=300&mask.fieldPaths=__name__")
    );
    assert_eq!(col.get_documents(None).first_request().url, format!("{DOCS}/users?pageSize=300"));
    assert_eq!(col.delete_all(None).total, 0);
    assert_eq!(col.delete_all_concurrent(20, None).concurrency, 20);
    assert_eq!(col.count(None).request.url, format!("{DOCS}:runAggregationQuery"));
}

#[test]
fn listed_documents_become_references() {
    let col = Collection::new("tok".to_string(), "proj".to_string(), "users".to_string());
    let raw = "{\"name\":\"projects/proj/databases/(default)/documents/users/a\",\"fields\":{}}".to_string();
    let docs = col.documents_from_raws(vec![raw.clone()]).unwrap();
    assert_eq!(docs.len(), 1);
    assert_eq!(docs[0].path, "users/a");
    assert_eq!(docs[0].raw, Some(raw.clone()));
    assert_eq!(docs[0].auth_token, "tok");
    assert_eq!(
        col.documents_from_raws(vec![raw.clone(), "{}".to_string()]).map(|d| d.len()),
        Err("Missing document name".to_string())
    );
    assert_eq!(
        col.documents_from_raws(vec!["{\"name\":\"users/a\"}".to_string()]).map(|d| d.len()),
        Err("Malformed document name".to_string())
    );
    let msg = serde_json::from_str::<serde_json::Value>("{").unwrap_err().to_string();
    assert_eq!(
        col.documents_from_raws(vec!["{".to_string()]).map(|d| d.len()),
        Err(format!("Bad doc JSON: {msg}"))
    );
    assert_eq!(document_path_from("{\"name\":\"a/documents/b/documents/c\"}"), Ok("b/documents/c".to_string()));
}

#[test]
fn responses_keep_their_text() {
    let r = FirestoreResponse { raw: "{}".to_string() };
    assert_eq!(r.raw(), "{}");
}
