//! References to Firestore data: a client bound to a token and project,
//! collections, documents and fields. Building a reference sends nothing;
//! each call on one gives the request or the paging machine that does it.

use std::collections::HashMap;
use vstd::prelude::*;

use crate::firestore::{
    bare_request, bearer_header, commit_body, commit_url, count_body, count_collection_id, count_url, document_name,
    document_url, field_patch_url, field_tree, increment_value, json_request, patch_value, server_time_transform,
    core_count_documents, core_delete_document, core_delete_field, core_field_increment, core_get, core_patch,
    core_server_timestamp, IncrementAmount,
};
use crate::http::{headers_view, BodyView, Call, HttpMethod, ReplyWording, RequestView};
use crate::json::{opt_text, json_check, json_parse_failure, string_member, string_member_of};
use crate::paging::{
    core_delete_collection, core_delete_collection_concurrent, core_get_collection, core_get_document_ids,
    core_get_documents, ConcurrentPurge, Gather, Listing, PageShape, Purge,
};
use crate::text::{find, find_str, lemma_find_in_bounds, trim_end, trim_end_char};

verus! {

/// The reply of a Firestore call, as received.
#[derive(Debug)]
pub struct FirestoreResponse {
    pub raw: String,
}

impl FirestoreResponse {
    /// The reply text.
    pub fn raw(&self) -> (res: &str)
        ensures
            res@ == self.raw@,
    {
        self.raw.as_str()
    }
}

/// A Firestore client: the bearer token and project that its references use.
#[derive(Debug)]
pub struct FirestoreClient {
    pub auth_token: String,
    pub project: String,
}

/// A reference to a collection.
#[derive(Debug)]
pub struct Collection {
    pub auth_token: String,
    pub project: String,
    pub path: String,
}

/// A reference to a document, with its JSON text when a listing fetched it.
#[derive(Debug)]
pub struct Document {
    pub auth_token: String,
    pub project: String,
    pub path: String,
    pub raw: Option<String>,
}

/// A reference to one field of a document.
#[derive(Debug)]
pub struct Field {
    pub auth_token: String,
    pub project: String,
    pub path: String,
    pub field_name: String,
}

/// The path of the child `id` under `parent`: the parent's trailing slashes
/// dropped, then a slash and the id.
pub open spec fn child_path(parent: Seq<char>, id: Seq<char>) -> Seq<char> {
    trim_end(parent, '/') + "/"@ + id
}

fn child_path_text(parent: &str, id: &str) -> (res: String)
    ensures
        res@ == child_path(parent@, id@),
{
    trim_end_char(parent, '/').concat("/").concat(id)
}

impl FirestoreClient {
    /// A client for `project` that sends `auth_token`.
    pub fn new(auth_token: String, project: String) -> (res: FirestoreClient)
        ensures
            res.auth_token@ == auth_token@,
            res.project@ == project@,
    {
        FirestoreClient { auth_token, project }
    }

    /// The collection at `path`.
    pub fn collection(&self, path: String) -> (res: Collection)
        ensures
            res.auth_token@ == self.auth_token@,
            res.project@ == self.project@,
            res.path@ == path@,
    {
        Collection { auth_token: self.auth_token.clone(), project: self.project.clone(), path }
    }

    /// The document at `path`.
    pub fn doc(&self, path: String) -> (res: Document)
        ensures
            res.auth_token@ == self.auth_token@,
            res.project@ == self.project@,
            res.path@ == path@,
            res.raw is None,
    {
        Document { auth_token: self.auth_token.clone(), project: self.project.clone(), path, raw: None }
    }
}

/// The path of a listed document, from the parser's verdict on its text and
/// its `name` string: the part of the name after the first `/documents/`,
/// or why there is none.
pub open spec fn document_path_verdict(parse_failure: Option<Seq<char>>, name: Option<Seq<char>>) -> Result<
    Seq<char>,
    Seq<char>,
> {
    match parse_failure {
        Some(e) => Err("Bad doc JSON: "@ + e),
        None => match name {
            None => Err("Missing document name"@),
            Some(name) => match find(name, "/documents/"@) {
                None => Err("Malformed document name"@),
                Some(i) => Ok(name.skip(i + "/documents/"@.len())),
            },
        },
    }
}

/// The path of the listed document whose JSON text is `raw`.
pub open spec fn document_path_of(raw: Seq<char>) -> Result<Seq<char>, Seq<char>> {
    document_path_verdict(json_parse_failure(raw), string_member(raw, "name"@))
}

/// Decides the path of a listed document from the parser's verdict on its
/// text and its `name` string.
pub fn document_path_from_name(parse_failure: Option<String>, name: Option<String>) -> (res: Result<String, String>)
    ensures
        match document_path_verdict(opt_text(parse_failure), opt_text(name)) {
            Ok(p) => res matches Ok(q) && q@ == p,
            Err(m) => res matches Err(e) && e@ == m,
        },
{
    match parse_failure {
        Some(e) => return Err(String::from_str("Bad doc JSON: ").concat(e.as_str())),
        None => {},
    }
    let name = match name {
        Some(n) => n,
        None => return Err(String::from_str("Missing document name")),
    };
    let marker = "/documents/";
    match find_str(name.as_str(), marker) {
        None => Err(String::from_str("Malformed document name")),
        Some(i) => {
            let n = name.as_str().unicode_len();
            let m = marker.unicode_len();
            proof {
                lemma_find_in_bounds(name@, marker@, 0);
            }
            let start = i + m;
            proof {
                assert(name@.skip(start as int) =~= name@.subrange(start as int, n as int));
            }
            Ok(String::from_str(name.as_str().substring_char(start, n)))
        },
    }
}

/// The path a listed document gives, or why it cannot be read.
pub fn document_path_from(raw: &str) -> (res: Result<String, String>)
    ensures
        match document_path_of(raw@) {
            Ok(p) => res matches Ok(q) && q@ == p,
            Err(m) => res matches Err(e) && e@ == m,
        },
{
    let parse_failure = json_check(raw);
    let name = string_member_of(raw, "name");
    document_path_from_name(parse_failure, name)
}

impl Collection {
    /// The collection at `path`.
    pub fn new(auth_token: String, project: String, path: String) -> (res: Collection)
        ensures
            res.auth_token@ == auth_token@,
            res.project@ == project@,
            res.path@ == path@,
    {
        Collection { auth_token, project, path }
    }

    /// The document `doc_id` of this collection.
    pub fn doc(&self, doc_id: String) -> (res: Document)
        ensures
            res.auth_token@ == self.auth_token@,
            res.project@ == self.project@,
            res.path@ == child_path(self.path@, doc_id@),
            res.raw is None,
    {
        Document {
            auth_token: self.auth_token.clone(),
            project: self.project.clone(),
            path: child_path_text(self.path.as_str(), doc_id.as_str()),
            raw: None,
        }
    }

    /// Fetches every document, `page_size` to a page; `json_array` of the
    /// finished listing gives them as one JSON array.
    pub fn get(&self, page_size: i32, headers: Option<HashMap<String, String>>) -> (res: Listing)
        ensures
            res.is_start(self.auth_token@, self.project@, self.path@, headers_view(headers), PageShape::Full(page_size), Gather::Texts),
    {
        core_get_collection(self.auth_token.as_str(), self.project.as_str(), self.path.as_str(), page_size, headers)
    }

    /// Lists the bare ids of the documents, by name only.
    pub fn get_document_ids(&self, headers: Option<HashMap<String, String>>) -> (res: Listing)
        ensures
            res.is_start(self.auth_token@, self.project@, self.path@, headers_view(headers), PageShape::NamesOnly, Gather::Ids),
    {
        core_get_document_ids(self.auth_token.as_str(), self.project.as_str(), self.path.as_str(), headers)
    }

    /// Deletes every document, in batches of at most 500; gives the count deleted.
    pub fn delete_all(&self, headers: Option<HashMap<String, String>>) -> (res: Purge)
        ensures
            res.is_start(self.auth_token@, self.project@, self.path@, headers_view(headers)),
    {
        core_delete_collection(self.auth_token.as_str(), self.project.as_str(), self.path.as_str(), headers)
    }

    /// Lists the full documents, each as its own JSON text;
    /// `documents_from_raws` turns them into document references.
    pub fn get_documents(&self, headers: Option<HashMap<String, String>>) -> (res: Listing)
        ensures
            res.is_start(self.auth_token@, self.project@, self.path@, headers_view(headers), PageShape::Full(300), Gather::Texts),
    {
        core_get_documents(self.auth_token.as_str(), self.project.as_str(), self.path.as_str(), headers)
    }

    /// Turns listed documents into references that carry their JSON text,
    /// each at the path its resource name gives; the first document whose
    /// path cannot be read refuses the whole list.
    pub fn documents_from_raws(&self, raws: Vec<String>) -> (res: Result<Vec<Document>, String>)
        ensures
            match res {
                Ok(docs) => docs@.len() == raws@.len() && forall|i: int|
                    0 <= i < docs@.len() ==> {
                        &&& document_path_of(raws@[i]@) matches Ok(p) && (#[trigger] docs@[i]).path@ == p
                        &&& docs@[i].raw matches Some(r) && r@ == raws@[i]@
                        &&& docs@[i].auth_token@ == self.auth_token@
                        &&& docs@[i].project@ == self.project@
                    },
                Err(e) => exists|i: int|
                    0 <= i < raws@.len() && (forall|j: int| 0 <= j < i ==> #[trigger] document_path_of(raws@[j]@) is Ok)
                        && document_path_of(#[trigger] raws@[i]@) == Err::<Seq<char>, Seq<char>>(e@),
            },
    {
        let mut docs: Vec<Document> = Vec::new();
        let n = raws.len();
        let mut i: usize = 0;
        while i < n
            invariant
                n == raws@.len(),
                i <= n,
                docs@.len() == i,
                forall|j: int| 0 <= j < i ==> #[trigger] document_path_of(raws@[j]@) is Ok,
                forall|j: int|
                    0 <= j < i ==> {
                        &&& document_path_of(raws@[j]@) matches Ok(p) && (#[trigger] docs@[j]).path@ == p
                        &&& docs@[j].raw matches Some(r) && r@ == raws@[j]@
                        &&& docs@[j].auth_token@ == self.auth_token@
                        &&& docs@[j].project@ == self.project@
                    },
            decreases n - i,
        {
            let raw = &raws[i];
            match document_path_from(raw.as_str()) {
                Ok(path) => {
                    docs.push(
                        Document {
                            auth_token: self.auth_token.clone(),
                            project: self.project.clone(),
                            path,
                            raw: Some(raw.clone()),
                        },
                    );
                },
                Err(e) => {
                    return Err(e);
                },
            }
            i = i + 1;
        }
        Ok(docs)
    }

    /// Deletes every document with single concurrent deletes, `concurrency`
    /// at a time; `concurrency` must not be 0.
    pub fn delete_all_concurrent(&self, concurrency: usize, headers: Option<HashMap<String, String>>) -> (res:
        ConcurrentPurge)
        requires
            concurrency > 0,
        ensures
            res.is_start(self.auth_token@, self.project@, self.path@, concurrency, headers_view(headers)),
    {
        core_delete_collection_concurrent(
            self.auth_token.as_str(),
            self.project.as_str(),
            self.path.as_str(),
            concurrency,
            headers,
        )
    }

    /// Counts the documents with an aggregation query; `finish_count` reads the reply.
    pub fn count(&self, headers: Option<HashMap<String, String>>) -> (res: Call)
        ensures
            res.request@ == json_request(
                HttpMethod::Post,
                count_url(self.project@, self.path@),
                self.auth_token@,
                headers,
                count_body(count_collection_id(self.path@)),
            ),
            res.wording == ReplyWording::Standard,
    {
        core_count_documents(self.auth_token.as_str(), self.project.as_str(), self.path.as_str(), headers)
    }
}

impl Document {
    /// The document at `path`, with no JSON text yet.
    pub fn new(auth_token: String, project: String, path: String) -> (res: Document)
        ensures
            res.auth_token@ == auth_token@,
            res.project@ == project@,
            res.path@ == path@,
            res.raw is None,
    {
        Document { auth_token, project, path, raw: None }
    }

    /// Fetches the document.
    pub fn get(&self, headers: Option<HashMap<String, String>>) -> (res: Call)
        ensures
            res.request@ == bare_request(HttpMethod::Get, document_url(self.project@, self.path@), self.auth_token@, headers),
            res.wording == ReplyWording::Standard,
    {
        core_get(self.auth_token.as_str(), self.project.as_str(), self.path.as_str(), headers)
    }

    /// Writes one field, typed by `field_type`, as `core_patch` does.
    pub fn patch(
        &self,
        field_type: &str,
        field_path: &str,
        field_value: &str,
        double_literal: Option<String>,
        headers: Option<HashMap<String, String>>,
    ) -> (res: Result<Call, String>)
        ensures
            match patch_value(field_type@, field_value@, opt_text(double_literal)) {
                Ok(v) => res matches Ok(c) && c.wording == ReplyWording::Standard && c.request@ == json_request(
                    HttpMethod::Patch,
                    field_patch_url(self.project@, self.path@, field_path@),
                    self.auth_token@,
                    headers,
                    "{\"fields\":"@ + field_tree(field_path@, v) + "}"@,
                ),
                Err(m) => res matches Err(e) && e@ == m,
            },
    {
        core_patch(
            self.auth_token.as_str(),
            self.project.as_str(),
            self.path.as_str(),
            field_type,
            field_path,
            field_value,
            double_literal,
            headers,
        )
    }

    /// The field `field_name` of this document.
    pub fn field(&self, field_name: String) -> (res: Field)
        ensures
            res.auth_token@ == self.auth_token@,
            res.project@ == self.project@,
            res.path@ == self.path@,
            res.field_name@ == field_name@,
    {
        Field {
            auth_token: self.auth_token.clone(),
            project: self.project.clone(),
            path: self.path.clone(),
            field_name,
        }
    }

    /// Deletes the document.
    pub fn delete(&self, headers: Option<HashMap<String, String>>) -> (res: Call)
        ensures
            res.request@ == bare_request(
                HttpMethod::Delete,
                document_url(self.project@, self.path@),
                self.auth_token@,
                headers,
            ),
            res.wording == ReplyWording::Standard,
    {
        core_delete_document(self.auth_token.as_str(), self.project.as_str(), self.path.as_str(), headers)
    }

    /// The subcollection `collection_id` of this document.
    pub fn collection(&self, collection_id: String) -> (res: Collection)
        ensures
            res.auth_token@ == self.auth_token@,
            res.project@ == self.project@,
            res.path@ == child_path(self.path@, collection_id@),
    {
        Collection {
            auth_token: self.auth_token.clone(),
            project: self.project.clone(),
            path: child_path_text(self.path.as_str(), collection_id.as_str()),
        }
    }
}

impl Field {
    /// The field `field_name` of the document at `path`.
    pub fn new(auth_token: &str, project: &str, path: &str, field_name: &str) -> (res: Field)
        ensures
            res.auth_token@ == auth_token@,
            res.project@ == project@,
            res.path@ == path@,
            res.field_name@ == field_name@,
    {
        Field {
            auth_token: String::from_str(auth_token),
            project: String::from_str(project),
            path: String::from_str(path),
            field_name: String::from_str(field_name),
        }
    }

    /// Sets the field to the time the server gets the request.
    pub fn server_timestamp(&self, headers: Option<HashMap<String, String>>) -> (res: Call)
        ensures
            res.request@ == json_request(
                HttpMethod::Post,
                commit_url(self.project@),
                self.auth_token@,
                headers,
                commit_body(document_name(self.project@, self.path@), self.field_name@, server_time_transform()),
            ),
            res.wording == ReplyWording::TimestampCommit,
    {
        core_server_timestamp(
            self.auth_token.as_str(),
            self.project.as_str(),
            self.path.as_str(),
            self.field_name.as_str(),
            headers,
        )
    }

    /// Adds `amount` to the field.
    pub fn increment(&self, amount: IncrementAmount, headers: Option<HashMap<String, String>>) -> (res: Call)
        ensures
            res.request@ == json_request(
                HttpMethod::Post,
                commit_url(self.project@),
                self.auth_token@,
                headers,
                commit_body(
                    document_name(self.project@, self.path@),
                    self.field_name@,
                    "\"increment\":"@ + increment_value(amount),
                ),
            ),
            res.wording == ReplyWording::IncrementCommit,
    {
        core_field_increment(
            self.auth_token.as_str(),
            self.project.as_str(),
            self.path.as_str(),
            self.field_name.as_str(),
            amount,
            headers,
        )
    }

    /// Removes the field from its document.
    pub fn delete(&self, headers: Option<HashMap<String, String>>) -> (res: Call)
        ensures
            res.request@ == (RequestView {
                method: HttpMethod::Patch,
                url: field_patch_url(self.project@, self.path@, self.field_name@),
                headers: seq![bearer_header(self.auth_token@), ("Content-Type"@, "application-json"@)],
                extra_headers: headers_view(headers),
                body: BodyView::Json("{\"fields\":{}}"@),
            }),
            res.wording == ReplyWording::FieldDelete,
    {
        core_delete_field(
            self.auth_token.as_str(),
            self.project.as_str(),
            self.path.as_str(),
            self.field_name.as_str(),
            headers,
        )
    }
}

} // verus!
