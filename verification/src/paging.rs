//! The calls that page through a collection: listing its documents, their
//! ids or names, and deleting a whole collection in batches.
//!
//! Each is a state machine: the transport sends the request the machine
//! asks for and hands the reply back, until the machine is done.

use std::collections::HashMap;
use vstd::prelude::*;

use crate::firestore::{
    core_batch_delete, json_request, batch_write_url, batch_delete_body,
    bare_request, core_list_documents, document_url, list_documents_url, make_bare_request, build_url,
};
use crate::http::{is_success, complete, copy_headers, headers_view, reply_outcome, HttpMethod, HttpReply, HttpRequest, ReplyWording, RequestView};
use crate::json::{
    opt_text,
    array_member, array_member_of, json_check, json_parse_failure, string_member, string_member_of, texts,
};
use crate::text::{u64_text, decimal, i64_text, join, join_texts, last_segment, last_segment_of};

verus! {

/// How a page of a listing is asked for: with full documents and a page
/// size, or with document names only, 300 to a page.
#[derive(Clone, Copy, Debug, PartialEq, Eq, Structural)]
pub enum PageShape {
    Full(i32),
    NamesOnly,
}

/// What a listing keeps of each document: its JSON text, its bare id, or
/// its full resource name.
#[derive(Clone, Copy, Debug, PartialEq, Eq, Structural)]
pub enum Gather {
    Texts,
    Ids,
    Names,
}

/// The URL of the page of a listing that `token` names (the first page when none).
pub open spec fn page_url(
    shape: PageShape,
    project: Seq<char>,
    collection_path: Seq<char>,
    token: Option<Seq<char>>,
) -> Seq<char> {
    match shape {
        PageShape::Full(n) => {
            let base = document_url(project, collection_path) + "?pageSize="@ + decimal(n as int);
            match token {
                Some(t) => base + "&pageToken="@ + t,
                None => base,
            }
        },
        PageShape::NamesOnly => list_documents_url(project, collection_path, 300, token),
    }
}

/// A listed document: its compact JSON text, and its `name` string member
/// when it has one.
#[derive(Debug)]
pub struct ListedDoc {
    pub text: String,
    pub name: Option<String>,
}

/// What a list reply holds: the parser's message when the reply is not
/// JSON, the elements of its `documents` array when it has one, and its
/// `nextPageToken` string when it has one.
#[derive(Debug)]
pub struct ListPage {
    pub parse_failure: Option<String>,
    pub documents: Option<Vec<ListedDoc>>,
    pub next_page_token: Option<String>,
}

/// The value of a listed document.
pub struct ListedDocView {
    pub text: Seq<char>,
    pub name: Option<Seq<char>>,
}

/// The value of what a list reply holds.
pub struct ListPageView {
    pub parse_failure: Option<Seq<char>>,
    pub documents: Option<Seq<ListedDocView>>,
    pub next_page_token: Option<Seq<char>>,
}

impl View for ListedDoc {
    type V = ListedDocView;

    open spec fn view(&self) -> ListedDocView {
        ListedDocView { text: self.text@, name: opt_text(self.name) }
    }
}

impl View for ListPage {
    type V = ListPageView;

    open spec fn view(&self) -> ListPageView {
        ListPageView {
            parse_failure: opt_text(self.parse_failure),
            documents: match self.documents {
                Some(ds) => Some(ds@.map_values(|d: ListedDoc| d@)),
                None => None,
            },
            next_page_token: opt_text(self.next_page_token),
        }
    }
}

/// The listed document whose compact JSON text is `doc`.
pub open spec fn listed_doc_of(doc: Seq<char>) -> ListedDocView {
    ListedDocView { text: doc, name: string_member(doc, "name"@) }
}

/// The page token of a list reply.
pub open spec fn next_page_token(text: Seq<char>) -> Option<Seq<char>> {
    string_member(text, "nextPageToken"@)
}

/// What the list reply `text` holds, as `serde_json` reads it.
pub open spec fn list_page_of(text: Seq<char>) -> ListPageView {
    ListPageView {
        parse_failure: json_parse_failure(text),
        documents: match array_member(text, "documents"@) {
            Some(ds) => Some(ds.map_values(|d: Seq<char>| listed_doc_of(d))),
            None => None,
        },
        next_page_token: next_page_token(text),
    }
}

/// Reads what a list reply holds.
pub fn read_list_page(text: &str) -> (res: ListPage)
    ensures
        res@ == list_page_of(text@),
{
    let parse_failure = json_check(text);
    let documents = match array_member_of(text, "documents") {
        Some(ds) => {
            let mut out: Vec<ListedDoc> = Vec::new();
            let n = ds.len();
            let mut i: usize = 0;
            while i < n
                invariant
                    n == ds@.len(),
                    i <= n,
                    out@.len() == i,
                    forall|j: int| 0 <= j < i ==> #[trigger] out@[j]@ == listed_doc_of(ds@[j]@),
                decreases n - i,
            {
                let name = string_member_of(ds[i].as_str(), "name");
                out.push(ListedDoc { text: ds[i].clone(), name });
                i = i + 1;
            }
            proof {
                assert(out@.map_values(|d: ListedDoc| d@) =~= texts(ds@).map_values(
                    |d: Seq<char>| listed_doc_of(d),
                ));
            }
            Some(out)
        },
        None => None,
    };
    let next_page_token = string_member_of(text, "nextPageToken");
    ListPage { parse_failure, documents, next_page_token }
}

/// What a listing keeps of one document.
pub open spec fn keep_one(g: Gather, doc: ListedDocView) -> Seq<Seq<char>> {
    match g {
        Gather::Texts => seq![doc.text],
        Gather::Ids => match doc.name {
            Some(n) => seq![last_segment(n, '/')],
            None => Seq::empty(),
        },
        Gather::Names => match doc.name {
            Some(n) => seq![n],
            None => Seq::empty(),
        },
    }
}

/// What a listing keeps of the documents `docs`, in order.
pub open spec fn keep_all(g: Gather, docs: Seq<ListedDocView>) -> Seq<Seq<char>>
    decreases docs.len(),
{
    if docs.len() == 0 {
        Seq::empty()
    } else {
        keep_all(g, docs.drop_last()) + keep_one(g, docs.last())
    }
}

/// What a listing keeps of a page: of each of its documents, when it has any.
pub open spec fn page_items(g: Gather, page: ListPageView) -> Seq<Seq<char>> {
    match page.documents {
        Some(ds) => keep_all(g, ds),
        None => Seq::empty(),
    }
}

/// Appends to `items` what `g` keeps of each of `docs`, in order.
pub fn keep_docs(g: Gather, docs: &Vec<ListedDoc>, items: &mut Vec<String>)
    ensures
        texts(final(items)@) == texts(old(items)@) + keep_all(g, docs@.map_values(|d: ListedDoc| d@)),
{
    let ghost start = texts(items@);
    let ghost ds = docs@.map_values(|d: ListedDoc| d@);
    let n = docs.len();
    let mut i: usize = 0;
    while i < n
        invariant
            n == docs@.len(),
            i <= n,
            ds == docs@.map_values(|d: ListedDoc| d@),
            start == texts(old(items)@),
            texts(items@) == start + keep_all(g, ds.take(i as int)),
        decreases n - i,
    {
        proof {
            assert(ds.take(i + 1).drop_last() =~= ds.take(i as int));
            assert(ds.take(i + 1).last() == docs@[i as int]@);
        }
        let doc = &docs[i];
        let ghost before = texts(items@);
        match g {
            Gather::Texts => {
                items.push(doc.text.clone());
            },
            Gather::Ids => match &doc.name {
                Some(name) => {
                    items.push(last_segment_of(name.as_str(), '/'));
                },
                None => {},
            },
            Gather::Names => match &doc.name {
                Some(name) => {
                    items.push(name.clone());
                },
                None => {},
            },
        }
        proof {
            assert(texts(items@) =~= before + keep_one(g, ds[i as int]));
            assert(texts(items@) =~= start + keep_all(g, ds.take(i + 1)));
        }
        i = i + 1;
    }
    proof {
        assert(ds.take(n as int) =~= ds);
    }
}

/// Where a listing stands after a reply: failed with a message, wanting the
/// next page, or finished.
#[derive(Debug)]
pub enum ListProgress {
    Failed(String),
    Send(HttpRequest),
    Finished,
}

/// A listing of the documents of a collection, page by page.
#[derive(Debug)]
pub struct Listing {
    pub auth_token: String,
    pub project: String,
    pub collection_path: String,
    pub headers: Option<HashMap<String, String>>,
    pub shape: PageShape,
    pub gather: Gather,
    /// What was kept of the documents of the pages read so far.
    pub items: Vec<String>,
}

impl Listing {
    /// Whether this is a listing not yet started, with these settings.
    pub open spec fn is_start(
        &self,
        auth_token: Seq<char>,
        project: Seq<char>,
        collection_path: Seq<char>,
        headers: Option<Map<String, String>>,
        shape: PageShape,
        gather: Gather,
    ) -> bool {
        &&& self.auth_token@ == auth_token
        &&& self.project@ == project
        &&& self.collection_path@ == collection_path
        &&& headers_view(self.headers) == headers
        &&& self.shape == shape
        &&& self.gather == gather
        &&& self.items@.len() == 0
    }

    /// The request for the page that `token` names.
    pub open spec fn page_request_spec(&self, token: Option<Seq<char>>) -> RequestView {
        bare_request(
            HttpMethod::Get,
            page_url(self.shape, self.project@, self.collection_path@, token),
            self.auth_token@,
            self.headers,
        )
    }

    /// Builds the request for the page that `token` names.
    pub fn page_request(&self, token: Option<&str>) -> (res: HttpRequest)
        ensures
            res@ == self.page_request_spec(match token {
                Some(t) => Some(t@),
                None => None,
            }),
    {
        match self.shape {
            PageShape::Full(n) => {
                let mut url = build_url(self.project.as_str(), self.collection_path.as_str()).concat(
                    "?pageSize=",
                ).concat(i64_text(n as i64).as_str());
                match token {
                    Some(t) => {
                        url = url.concat("&pageToken=").concat(t);
                    },
                    None => {},
                }
                make_bare_request(HttpMethod::Get, url, self.auth_token.as_str(), copy_headers(&self.headers))
            },
            PageShape::NamesOnly => {
                core_list_documents(
                    self.auth_token.as_str(),
                    self.project.as_str(),
                    self.collection_path.as_str(),
                    300,
                    token,
                    copy_headers(&self.headers),
                ).request
            },
        }
    }

    /// The request for the first page.
    pub fn first_request(&self) -> (res: HttpRequest)
        ensures
            res@ == self.page_request_spec(None),
    {
        self.page_request(None)
    }

    /// Whether, from `old`, taking in the page `page` left this listing as
    /// it is and handed out `res`: a page that is not JSON fails the
    /// listing; otherwise what is kept of its documents is appended, and the
    /// next page is asked for while the page names one.
    pub open spec fn took_page(&self, old: Listing, page: ListPageView, res: ListProgress) -> bool {
        &&& self.auth_token == old.auth_token
        &&& self.project == old.project
        &&& self.collection_path == old.collection_path
        &&& headers_view(self.headers) == headers_view(old.headers)
        &&& self.shape == old.shape
        &&& self.gather == old.gather
        &&& match page.parse_failure {
            Some(e) => res matches ListProgress::Failed(f) && f@ == "Bad list response: "@ + e
                && self.items@ == old.items@,
            None => texts(self.items@) == texts(old.items@) + page_items(old.gather, page) && match page.next_page_token {
                Some(t) => res matches ListProgress::Send(r) && r@ == self.page_request_spec(Some(t)),
                None => res matches ListProgress::Finished,
            },
        }
    }

    /// Takes in what a list reply holds.
    pub fn on_page(&mut self, page: ListPage) -> (res: ListProgress)
        ensures
            final(self).took_page(*old(self), page@, res),
    {
        let ghost pv = page@;
        match page.parse_failure {
            Some(e) => return ListProgress::Failed(String::from_str("Bad list response: ").concat(e.as_str())),
            None => {},
        }
        match &page.documents {
            Some(docs) => keep_docs(self.gather, docs, &mut self.items),
            None => {
                proof {
                    assert(texts(self.items@) =~= texts(old(self).items@) + page_items(old(self).gather, pv));
                }
            },
        }
        match &page.next_page_token {
            Some(t) => ListProgress::Send(self.page_request(Some(t.as_str()))),
            None => ListProgress::Finished,
        }
    }

    /// Reads the reply to a page request: a failed call ends the listing
    /// with its error; otherwise the reply's page is taken in.
    pub fn on_reply(&mut self, reply: HttpReply) -> (res: ListProgress)
        ensures
            match reply_outcome(ReplyWording::Standard, reply) {
                Err(m) => res matches ListProgress::Failed(e) && e@ == m && *final(self) == *old(self),
                Ok(text) => final(self).took_page(*old(self), list_page_of(text), res),
            },
    {
        match complete(ReplyWording::Standard, reply) {
            Ok(text) => self.on_page(read_list_page(text.as_str())),
            Err(e) => ListProgress::Failed(e),
        }
    }

    /// What was kept of the documents, as JSON text: the array of the
    /// documents' texts, written compactly.
    pub fn json_array(&self) -> (res: String)
        ensures
            res@ == "["@ + join(texts(self.items@), ","@) + "]"@,
    {
        String::from_str("[").concat(join_texts(&self.items, ",").as_str()).concat("]")
    }
}

/// Lists the full documents of a collection, `page_size` to a page, paging
/// through it all; `json_array` gives them as one JSON array once finished.
pub fn core_get_collection(
    auth_token: &str,
    project: &str,
    collection_path: &str,
    page_size: i32,
    headers: Option<HashMap<String, String>>,
) -> (res: Listing)
    ensures
        res.is_start(auth_token@, project@, collection_path@, headers_view(headers), PageShape::Full(page_size), Gather::Texts),
{
    Listing {
        auth_token: String::from_str(auth_token),
        project: String::from_str(project),
        collection_path: String::from_str(collection_path),
        headers,
        shape: PageShape::Full(page_size),
        gather: Gather::Texts,
        items: Vec::new(),
    }
}

/// Lists the full documents of a collection, 300 to a page, each as its
/// own JSON text.
pub fn core_get_documents(
    auth_token: &str,
    project: &str,
    collection_path: &str,
    headers: Option<HashMap<String, String>>,
) -> (res: Listing)
    ensures
        res.is_start(auth_token@, project@, collection_path@, headers_view(headers), PageShape::Full(300), Gather::Texts),
{
    Listing {
        auth_token: String::from_str(auth_token),
        project: String::from_str(project),
        collection_path: String::from_str(collection_path),
        headers,
        shape: PageShape::Full(300),
        gather: Gather::Texts,
        items: Vec::new(),
    }
}

/// Lists the bare ids (the last segment of each name) of the documents of a
/// collection, asking for names only.
pub fn core_get_document_ids(
    auth_token: &str,
    project: &str,
    collection_path: &str,
    headers: Option<HashMap<String, String>>,
) -> (res: Listing)
    ensures
        res.is_start(auth_token@, project@, collection_path@, headers_view(headers), PageShape::NamesOnly, Gather::Ids),
{
    Listing {
        auth_token: String::from_str(auth_token),
        project: String::from_str(project),
        collection_path: String::from_str(collection_path),
        headers,
        shape: PageShape::NamesOnly,
        gather: Gather::Ids,
        items: Vec::new(),
    }
}


/// The state of a collection purge, as values.
pub struct PurgeView {
    /// The count of deleted documents, kept as a `u32`.
    pub total: int,
    /// Names of the current page that no batch has carried yet.
    pub pending: Seq<Seq<char>>,
    /// Names carried by the batch whose reply is awaited.
    pub in_flight: Seq<Seq<char>>,
    /// The token of the page after the current one.
    pub next_token: Option<Seq<char>>,
    /// Whether the reply awaited is that of a page request.
    pub awaiting_page: bool,
    /// Names whose batch the service acknowledged.
    pub deleted: Seq<Seq<char>>,
}

/// The next move of a collection purge.
pub enum PurgeMove {
    /// Ask for the page that the token names (the first page when none).
    SendPage(Option<Seq<char>>),
    /// Delete these names in one batch write.
    SendBatch(Seq<Seq<char>>),
    /// Stop with this result.
    Done(Result<int, Seq<char>>),
}

/// The most names one batch write carries.
pub open spec fn batch_limit() -> int {
    500
}

/// What a purge does once a page's names are known or a batch is
/// acknowledged: delete the next batch of at most 500 pending names, else
/// ask for the next page, else stop with the count.
pub open spec fn purge_dispatch(v: PurgeView) -> (PurgeView, PurgeMove) {
    if v.pending.len() > 0 {
        let k = if v.pending.len() < batch_limit() { v.pending.len() as int } else { batch_limit() };
        (
            PurgeView {
                pending: v.pending.skip(k),
                in_flight: v.pending.take(k),
                awaiting_page: false,
                ..v
            },
            PurgeMove::SendBatch(v.pending.take(k)),
        )
    } else {
        match v.next_token {
            Some(t) => (
                PurgeView { in_flight: Seq::empty(), awaiting_page: true, ..v },
                PurgeMove::SendPage(Some(t)),
            ),
            None => (v, PurgeMove::Done(Ok(v.total))),
        }
    }
}

/// What a purge does with the page it awaited: a page that is not JSON
/// stops it with an error, a page without documents stops it with the
/// count, and the names of the others are deleted batch by batch.
pub open spec fn purge_on_page(v: PurgeView, page: ListPageView) -> (PurgeView, PurgeMove) {
    match page.parse_failure {
        Some(e) => (v, PurgeMove::Done(Err("Bad list response: "@ + e))),
        None => {
            let docs = match page.documents {
                Some(d) => d,
                None => Seq::empty(),
            };
            if docs.len() == 0 {
                (v, PurgeMove::Done(Ok(v.total)))
            } else {
                purge_dispatch(
                    PurgeView { pending: keep_all(Gather::Names, docs), next_token: page.next_page_token, ..v },
                )
            }
        },
    }
}

/// What a purge does once the batch in flight is acknowledged: counts its
/// names, then moves on.
pub open spec fn purge_on_ack(v: PurgeView) -> (PurgeView, PurgeMove) {
    purge_dispatch(
        PurgeView {
            total: (v.total + v.in_flight.len()) % 0x1_0000_0000,
            deleted: v.deleted + v.in_flight,
            in_flight: Seq::empty(),
            ..v
        },
    )
}

/// What a purge does with a reply: a failed call stops it with its error.
pub open spec fn purge_step(v: PurgeView, reply: HttpReply) -> (PurgeView, PurgeMove) {
    match reply_outcome(ReplyWording::Standard, reply) {
        Err(m) => (v, PurgeMove::Done(Err(m))),
        Ok(text) => if v.awaiting_page {
            purge_on_page(v, list_page_of(text))
        } else {
            purge_on_ack(v)
        },
    }
}

/// A purge keeps its count equal to the number of names acknowledged
/// (as a `u32`), never has more than a batch's worth in flight, and has
/// none in flight while it awaits a page.
pub open spec fn purge_consistent(v: PurgeView) -> bool {
    &&& 0 <= v.total < 0x1_0000_0000
    &&& v.total == v.deleted.len() % 0x1_0000_0000
    &&& v.in_flight.len() <= batch_limit()
    &&& v.awaiting_page ==> v.in_flight.len() == 0
}

/// The result of one step of a purge.
#[derive(Debug)]
pub enum PurgeProgress {
    Send(HttpRequest),
    Done(Result<u32, String>),
}

/// Deletes every document of a collection: lists it by name, 300 to a page,
/// and deletes the names of each page in batch writes of at most 500,
/// until a page is empty or has no next page. Done gives the count deleted.
pub struct Purge {
    pub auth_token: String,
    pub project: String,
    pub collection_path: String,
    pub headers: Option<HashMap<String, String>>,
    pub total: u32,
    pub pending: Vec<String>,
    pub in_flight: Vec<String>,
    pub next_token: Option<String>,
    pub awaiting_page: bool,
    pub deleted: Ghost<Seq<Seq<char>>>,
}

impl Purge {
    /// Whether this is a purge not yet started, with these settings.
    pub open spec fn is_start(
        &self,
        auth_token: Seq<char>,
        project: Seq<char>,
        collection_path: Seq<char>,
        headers: Option<Map<String, String>>,
    ) -> bool {
        &&& self.auth_token@ == auth_token
        &&& self.project@ == project
        &&& self.collection_path@ == collection_path
        &&& headers_view(self.headers) == headers
        &&& self.state() == (PurgeView {
            total: 0,
            pending: Seq::empty(),
            in_flight: Seq::empty(),
            next_token: None,
            awaiting_page: true,
            deleted: Seq::empty(),
        })
        &&& purge_consistent(self.state())
    }

    /// The state of the purge as values.
    pub open spec fn state(&self) -> PurgeView {
        PurgeView {
            total: self.total as int,
            pending: texts(self.pending@),
            in_flight: texts(self.in_flight@),
            next_token: match self.next_token {
                Some(t) => Some(t@),
                None => None,
            },
            awaiting_page: self.awaiting_page,
            deleted: self.deleted@,
        }
    }

    /// The request that a move asks for.
    pub open spec fn request_for(&self, m: PurgeMove) -> Option<RequestView> {
        match m {
            PurgeMove::SendPage(t) => Some(
                bare_request(
                    HttpMethod::Get,
                    list_documents_url(self.project@, self.collection_path@, 300, t),
                    self.auth_token@,
                    self.headers,
                ),
            ),
            PurgeMove::SendBatch(names) => Some(
                json_request(
                    HttpMethod::Post,
                    batch_write_url(self.project@),
                    self.auth_token@,
                    self.headers,
                    batch_delete_body(names),
                ),
            ),
            PurgeMove::Done(_) => None,
        }
    }

    /// Whether the progress handed out carries out the move.
    pub open spec fn carries_out(&self, p: PurgeProgress, m: PurgeMove) -> bool {
        match m {
            PurgeMove::Done(Ok(n)) => p matches PurgeProgress::Done(Ok(k)) && k as int == n,
            PurgeMove::Done(Err(e)) => p matches PurgeProgress::Done(Err(f)) && f@ == e,
            _ => p matches PurgeProgress::Send(r) && Some(r@) == self.request_for(m),
        }
    }

    /// The request for the first page.
    pub fn first_request(&self) -> (res: HttpRequest)
        ensures
            Some(res@) == self.request_for(PurgeMove::SendPage(None)),
    {
        core_list_documents(
            self.auth_token.as_str(),
            self.project.as_str(),
            self.collection_path.as_str(),
            300,
            None,
            copy_headers(&self.headers),
        ).request
    }

    fn dispatch(&mut self) -> (res: PurgeProgress)
        requires
            purge_consistent(old(self).state()),
            old(self).in_flight@.len() == 0,
        ensures
            final(self).auth_token == old(self).auth_token,
            final(self).project == old(self).project,
            final(self).collection_path == old(self).collection_path,
            headers_view(final(self).headers) == headers_view(old(self).headers),
            final(self).state() == purge_dispatch(old(self).state()).0,
            final(self).carries_out(res, purge_dispatch(old(self).state()).1),
            purge_consistent(final(self).state()),
    {
        let n = self.pending.len();
        if n > 0 {
            let k: usize = if n < 500 { n } else { 500 };
            let mut batch = self.pending.split_off(k);
            std::mem::swap(&mut batch, &mut self.pending);
            proof {
                assert(texts(self.pending@) =~= texts(old(self).pending@).skip(k as int));
                assert(texts(batch@) =~= texts(old(self).pending@).take(k as int));
            }
            let call = core_batch_delete(
                self.auth_token.as_str(),
                self.project.as_str(),
                batch.as_slice(),
                copy_headers(&self.headers),
            );
            self.in_flight = batch;
            self.awaiting_page = false;
            proof {
                assert(self.state() =~~= purge_dispatch(old(self).state()).0);
            }
            PurgeProgress::Send(call.request)
        } else {
            match &self.next_token {
                Some(t) => {
                    let call = core_list_documents(
                        self.auth_token.as_str(),
                        self.project.as_str(),
                        self.collection_path.as_str(),
                        300,
                        Some(t.as_str()),
                        copy_headers(&self.headers),
                    );
                    self.awaiting_page = true;
                    proof {
                        assert(self.state().in_flight =~= Seq::<Seq<char>>::empty());
                        assert(self.state() == purge_dispatch(old(self).state()).0);
                    }
                    PurgeProgress::Send(call.request)
                },
                None => PurgeProgress::Done(Ok(self.total)),
            }
        }
    }

    /// Takes in the page the purge awaited, moving on by `purge_on_page`.
    pub fn on_page(&mut self, page: ListPage) -> (res: PurgeProgress)
        requires
            purge_consistent(old(self).state()),
            old(self).awaiting_page,
        ensures
            final(self).auth_token == old(self).auth_token,
            final(self).project == old(self).project,
            final(self).collection_path == old(self).collection_path,
            headers_view(final(self).headers) == headers_view(old(self).headers),
            final(self).state() == purge_on_page(old(self).state(), page@).0,
            final(self).carries_out(res, purge_on_page(old(self).state(), page@).1),
            purge_consistent(final(self).state()),
    {
        let ghost pv = page@;
        match page.parse_failure {
            Some(e) => return PurgeProgress::Done(Err(String::from_str("Bad list response: ").concat(e.as_str()))),
            None => {},
        }
        let docs = match page.documents {
            Some(d) => d,
            None => Vec::new(),
        };
        proof {
            if pv.documents is None {
                assert(docs@.map_values(|d: ListedDoc| d@) =~= Seq::<ListedDocView>::empty());
            }
        }
        if docs.len() == 0 {
            return PurgeProgress::Done(Ok(self.total));
        }
        let mut names: Vec<String> = Vec::new();
        keep_docs(Gather::Names, &docs, &mut names);
        proof {
            assert(texts(names@) =~= keep_all(Gather::Names, docs@.map_values(|d: ListedDoc| d@)));
        }
        self.pending = names;
        self.next_token = page.next_page_token;
        self.dispatch()
    }

    /// Counts the batch in flight as deleted and moves on by `purge_on_ack`.
    pub fn on_batch_done(&mut self) -> (res: PurgeProgress)
        requires
            purge_consistent(old(self).state()),
            !old(self).awaiting_page,
        ensures
            final(self).auth_token == old(self).auth_token,
            final(self).project == old(self).project,
            final(self).collection_path == old(self).collection_path,
            headers_view(final(self).headers) == headers_view(old(self).headers),
            final(self).state() == purge_on_ack(old(self).state()).0,
            final(self).carries_out(res, purge_on_ack(old(self).state()).1),
            purge_consistent(final(self).state()),
    {
        let k = self.in_flight.len();
        self.total = self.total.wrapping_add(k as u32);
        proof {
            let old_len = self.deleted@.len();
            let t = old(self).total as int;
            let kk = k as int;
            vstd::arithmetic::div_mod::lemma_add_mod_noop(old_len as int, kk, 0x1_0000_0000);
            vstd::arithmetic::div_mod::lemma_small_mod(k as nat, 0x1_0000_0000);
            assert((t + kk) % 0x1_0000_0000 == if t + kk > 0xffff_ffff { t + kk - 0x1_0000_0000 } else { t + kk })
                by (nonlinear_arith)
                requires
                    0 <= t < 0x1_0000_0000,
                    0 <= kk <= 500,
            ;
            self.deleted@ = self.deleted@ + texts(self.in_flight@);
        }
        self.in_flight = Vec::new();
        proof {
            assert(self.state().in_flight =~= Seq::<Seq<char>>::empty());
            assert(self.state() == (PurgeView {
                total: (old(self).state().total + old(self).state().in_flight.len()) % 0x1_0000_0000,
                deleted: old(self).state().deleted + old(self).state().in_flight,
                in_flight: Seq::empty(),
                ..old(self).state()
            }));
        }
        self.dispatch()
    }

    /// Reads the reply to the request last handed out and moves the purge
    /// on by `purge_step`.
    pub fn on_reply(&mut self, reply: HttpReply) -> (res: PurgeProgress)
        requires
            purge_consistent(old(self).state()),
        ensures
            final(self).auth_token == old(self).auth_token,
            final(self).project == old(self).project,
            final(self).collection_path == old(self).collection_path,
            headers_view(final(self).headers) == headers_view(old(self).headers),
            final(self).state() == purge_step(old(self).state(), reply).0,
            final(self).carries_out(res, purge_step(old(self).state(), reply).1),
            purge_consistent(final(self).state()),
    {
        match complete(ReplyWording::Standard, reply) {
            Err(e) => PurgeProgress::Done(Err(e)),
            Ok(text) => if self.awaiting_page {
                self.on_page(read_list_page(text.as_str()))
            } else {
                self.on_batch_done()
            },
        }
    }
}

/// Deletes every document of a collection in batches of at most 500,
/// paging through it by name; `Purge::first_request` starts it.
pub fn core_delete_collection(
    auth_token: &str,
    project: &str,
    collection_path: &str,
    headers: Option<HashMap<String, String>>,
) -> (res: Purge)
    ensures
        res.is_start(auth_token@, project@, collection_path@, headers_view(headers)),
{
    let res = Purge {
        auth_token: String::from_str(auth_token),
        project: String::from_str(project),
        collection_path: String::from_str(collection_path),
        headers,
        total: 0,
        pending: Vec::new(),
        in_flight: Vec::new(),
        next_token: None,
        awaiting_page: true,
        deleted: Ghost(Seq::empty()),
    };
    proof {
        assert(res.state().pending =~= Seq::<Seq<char>>::empty());
        assert(res.state().in_flight =~= Seq::<Seq<char>>::empty());
        assert(res.state() == (PurgeView {
            total: 0,
            pending: Seq::empty(),
            in_flight: Seq::empty(),
            next_token: None,
            awaiting_page: true,
            deleted: Seq::empty(),
        }));
    }
    res
}


/// The URL that names a document by its full resource name.
pub open spec fn named_document_url(name: Seq<char>) -> Seq<char> {
    "https://firestore.googleapis.com/v1/"@ + name
}

/// What one delete of a concurrent purge gives: `None` when the service
/// acknowledged it, else the message of its failure.
pub open spec fn scatter_failure(reply: HttpReply) -> Option<Seq<char>> {
    match reply {
        HttpReply::Unsent(e) => Some("Request failed: "@ + e@),
        HttpReply::Received { status, status_line, body } => if is_success(status) {
            None
        } else {
            Some(
                "HTTP "@ + status_line@ + ": "@ + match body {
                    Ok(t) => t@,
                    Err(_) => Seq::empty(),
                },
            )
        },
    }
}

/// How many of `replies` acknowledge their delete.
pub open spec fn success_count(replies: Seq<HttpReply>) -> nat
    decreases replies.len(),
{
    if replies.len() == 0 {
        0
    } else {
        success_count(replies.drop_last()) + if scatter_failure(replies.last()) is None { 1nat } else { 0nat }
    }
}

/// The failure messages of `replies`, in order.
pub open spec fn failures(replies: Seq<HttpReply>) -> Seq<Seq<char>>
    decreases replies.len(),
{
    if replies.len() == 0 {
        Seq::empty()
    } else {
        failures(replies.drop_last()) + match scatter_failure(replies.last()) {
            Some(m) => seq![m],
            None => Seq::empty(),
        }
    }
}

/// What a concurrent purge gives once every delete has been answered: the
/// count deleted, or, when any failed, how many failed and the first failure.
pub open spec fn scatter_outcome(total: int, errors: Seq<Seq<char>>) -> Result<int, Seq<char>> {
    if errors.len() > 0 {
        Err(decimal(errors.len() as int) + " deletes failed, first error: "@ + errors[0])
    } else {
        Ok(total)
    }
}

/// Deletes every document of a collection with one DELETE per document,
/// for when batch writes are refused but single deletes are allowed. The
/// listing comes first (by name, 300 to a page); once it is finished, the
/// names are handed out in chunks of `concurrency`, each chunk's deletes to
/// be sent at once, and the next chunk only after every reply to the
/// previous one was taken in.
pub struct ConcurrentPurge {
    pub listing: Listing,
    pub concurrency: usize,
    /// Whether the listing is finished, so that deleting may start.
    pub listed: bool,
    /// Index of the first name no chunk has carried yet.
    pub next: usize,
    /// How many deletes of the last chunk handed out still await their reply.
    pub awaiting: usize,
    pub total: u32,
    pub errors: Vec<String>,
    /// How many deletes were acknowledged.
    pub acknowledged: Ghost<nat>,
}

/// Each reply either acknowledges its delete or gives one failure.
pub proof fn lemma_replies_split(replies: Seq<HttpReply>)
    ensures
        success_count(replies) + failures(replies).len() == replies.len(),
    decreases replies.len(),
{
    if replies.len() > 0 {
        lemma_replies_split(replies.drop_last());
    }
}

impl ConcurrentPurge {
    /// Whether this is a concurrent purge not yet started, with these settings.
    pub open spec fn is_start(
        &self,
        auth_token: Seq<char>,
        project: Seq<char>,
        collection_path: Seq<char>,
        concurrency: usize,
        headers: Option<Map<String, String>>,
    ) -> bool {
        &&& self.consistent()
        &&& self.listing.is_start(auth_token, project, collection_path, headers, PageShape::NamesOnly, Gather::Names)
        &&& self.concurrency == concurrency
        &&& !self.listed
        &&& self.next == 0
        &&& self.awaiting == 0
        &&& self.total == 0
        &&& self.errors@.len() == 0
        &&& self.acknowledged@ == 0
    }

    /// The request that deletes the document named `name`.
    pub open spec fn delete_request_spec(&self, name: Seq<char>) -> RequestView {
        bare_request(HttpMethod::Delete, named_document_url(name), self.listing.auth_token@, self.listing.headers)
    }

    /// The count is the number of acknowledged deletes, as a `u32`; the cursor
    /// stays within the names; nothing is deleted before the listing is
    /// finished; and every name handed out, but for those of the chunk
    /// awaiting replies, was either acknowledged or gave one failure.
    pub open spec fn consistent(&self) -> bool {
        &&& self.concurrency > 0
        &&& self.next <= self.listing.items@.len()
        &&& self.awaiting <= self.next
        &&& self.awaiting <= self.concurrency
        &&& self.total == self.acknowledged@ % 0x1_0000_0000
        &&& self.acknowledged@ + self.errors@.len() == self.next - self.awaiting
        &&& !self.listed ==> self.next == 0
    }

    /// Whether every name was handed out and every delete answered.
    pub open spec fn finished(&self) -> bool {
        &&& self.listed
        &&& self.awaiting == 0
        &&& self.next == self.listing.items@.len()
    }

    /// Takes in the reply to a page request of the listing; the listing is
    /// finished when the last page was taken in.
    pub fn on_list_reply(&mut self, reply: HttpReply) -> (res: ListProgress)
        requires
            old(self).consistent(),
            !old(self).listed,
        ensures
            final(self).consistent(),
            final(self).concurrency == old(self).concurrency,
            final(self).next == old(self).next,
            final(self).awaiting == old(self).awaiting,
            final(self).total == old(self).total,
            final(self).errors@ == old(self).errors@,
            final(self).acknowledged == old(self).acknowledged,
            final(self).listed == (res is Finished),
            match reply_outcome(ReplyWording::Standard, reply) {
                Err(m) => res matches ListProgress::Failed(e) && e@ == m && final(self).listing == old(self).listing,
                Ok(text) => final(self).listing.took_page(old(self).listing, list_page_of(text), res),
            },
    {
        let res = self.listing.on_reply(reply);
        self.listed = match res {
            ListProgress::Finished => true,
            _ => false,
        };
        res
    }

    /// The next chunk of deletes: the requests for the next `concurrency`
    /// names (fewer at the end), or `None` once every name was handed out.
    /// Asked only once the listing is finished and every delete of the
    /// previous chunk was answered; the chunk's deletes then await replies.
    pub fn next_chunk(&mut self) -> (res: Option<Vec<HttpRequest>>)
        requires
            old(self).consistent(),
            old(self).listed,
            old(self).awaiting == 0,
        ensures
            final(self).consistent(),
            final(self).listed,
            final(self).concurrency == old(self).concurrency,
            final(self).awaiting == final(self).next - old(self).next,
            res is None <==> final(self).finished(),
            final(self).listing.items@ == old(self).listing.items@,
            final(self).listing.auth_token == old(self).listing.auth_token,
            headers_view(final(self).listing.headers) == headers_view(old(self).listing.headers),
            final(self).total == old(self).total,
            final(self).errors@ == old(self).errors@,
            final(self).acknowledged == old(self).acknowledged,
            old(self).next == old(self).listing.items@.len() ==> res is None && final(self).next == old(self).next,
            old(self).next < old(self).listing.items@.len() ==> {
                let end = if old(self).next + old(self).concurrency < old(self).listing.items@.len() {
                    old(self).next + old(self).concurrency
                } else {
                    old(self).listing.items@.len() as int
                };
                &&& final(self).next == end
                &&& res matches Some(reqs) && reqs@.len() == end - old(self).next
                    && forall|j: int| 0 <= j < reqs@.len() ==> #[trigger] reqs@[j]@ == old(self).delete_request_spec(
                        old(self).listing.items@[old(self).next + j]@,
                    )
            },
    {
        let n = self.listing.items.len();
        if self.next == n {
            return None;
        }
        let end: usize = if self.concurrency < n - self.next {
            self.next + self.concurrency
        } else {
            n
        };
        let mut reqs: Vec<HttpRequest> = Vec::new();
        let mut i: usize = self.next;
        while i < end
            invariant
                self.next <= i <= end <= n,
                n == self.listing.items@.len(),
                reqs@.len() == i - self.next,
                forall|j: int| 0 <= j < reqs@.len() ==> #[trigger] reqs@[j]@ == self.delete_request_spec(
                    self.listing.items@[self.next + j]@,
                ),
            decreases end - i,
        {
            let url = String::from_str("https://firestore.googleapis.com/v1/").concat(self.listing.items[i].as_str());
            let req = make_bare_request(
                HttpMethod::Delete,
                url,
                self.listing.auth_token.as_str(),
                copy_headers(&self.listing.headers),
            );
            reqs.push(req);
            i = i + 1;
        }
        self.awaiting = end - self.next;
        self.next = end;
        Some(reqs)
    }

    /// Takes in the replies to the awaited chunk's deletes, one for each, in
    /// the order they came back: counts each acknowledged delete and keeps
    /// each failure's message.
    pub fn on_chunk_replies(&mut self, replies: Vec<HttpReply>)
        requires
            old(self).consistent(),
            old(self).listed,
            replies@.len() == old(self).awaiting,
        ensures
            final(self).consistent(),
            final(self).listed,
            final(self).concurrency == old(self).concurrency,
            final(self).awaiting == 0,
            final(self).listing.items@ == old(self).listing.items@,
            final(self).listing.auth_token == old(self).listing.auth_token,
            headers_view(final(self).listing.headers) == headers_view(old(self).listing.headers),
            final(self).next == old(self).next,
            final(self).acknowledged@ == old(self).acknowledged@ + success_count(replies@),
            texts(final(self).errors@) == texts(old(self).errors@) + failures(replies@),
    {
        let n = replies.len();
        let mut i: usize = 0;
        let ghost start_errors = texts(self.errors@);
        let ghost start_ack = self.acknowledged@;
        while i < n
            invariant
                n == replies@.len(),
                i <= n,
                self.concurrency == old(self).concurrency,
                self.listed == old(self).listed,
                self.awaiting == old(self).awaiting,
                self.total == self.acknowledged@ % 0x1_0000_0000,
                self.listing.items@ == old(self).listing.items@,
                self.listing.auth_token == old(self).listing.auth_token,
                self.listing.headers == old(self).listing.headers,
                self.next == old(self).next,
                start_errors == texts(old(self).errors@),
                start_ack == old(self).acknowledged@,
                self.acknowledged@ == start_ack + success_count(replies@.take(i as int)),
                texts(self.errors@) == start_errors + failures(replies@.take(i as int)),
            decreases n - i,
        {
            proof {
                assert(replies@.take(i + 1).drop_last() =~= replies@.take(i as int));
                assert(replies@.take(i + 1).last() == replies@[i as int]);
            }
            let ghost before = texts(self.errors@);
            match &replies[i] {
                HttpReply::Unsent(e) => {
                    self.errors.push(String::from_str("Request failed: ").concat(e.as_str()));
                },
                HttpReply::Received { status, status_line, body } => {
                    if 200 <= *status && *status <= 299 {
                        let ghost a = self.acknowledged@;
                        self.total = self.total.wrapping_add(1);
                        proof {
                            vstd::arithmetic::div_mod::lemma_add_mod_noop(a as int, 1, 0x1_0000_0000);
                            vstd::arithmetic::div_mod::lemma_small_mod(1, 0x1_0000_0000);
                            self.acknowledged@ = a + 1;
                        }
                        assert(self.total == self.acknowledged@ % 0x1_0000_0000) by {
                            let t = (self.acknowledged@ - 1) % 0x1_0000_0000;
                            assert(0 <= t < 0x1_0000_0000);
                            assert((t + 1) % 0x1_0000_0000 == if t + 1 > 0xffff_ffff { t + 1 - 0x1_0000_0000 } else { t + 1 })
                                by (nonlinear_arith)
                                requires
                                    0 <= t < 0x1_0000_0000,
                            ;
                        }
                    } else {
                        let detail = match body {
                            Ok(t) => t.clone(),
                            Err(_) => String::new(),
                        };
                        self.errors.push(
                            String::from_str("HTTP ").concat(status_line.as_str()).concat(": ").concat(detail.as_str()),
                        );
                    }
                },
            }
            proof {
                let extra = match scatter_failure(replies@[i as int]) {
                    Some(m) => seq![m],
                    None => Seq::<Seq<char>>::empty(),
                };
                assert(failures(replies@.take(i + 1)) == failures(replies@.take(i as int)) + extra);
                assert(texts(self.errors@) =~= before + extra);
                assert(texts(self.errors@) =~= start_errors + failures(replies@.take(i + 1)));
            }
            i = i + 1;
        }
        proof {
            assert(replies@.take(n as int) =~= replies@);
            lemma_replies_split(replies@);
        }
        self.awaiting = 0;
    }

    /// The result once every chunk was answered: the count deleted, which is
    /// the number of names listed when no delete failed, or, when any delete
    /// failed, how many failed and the first failure.
    pub fn outcome(&self) -> (res: Result<u32, String>)
        requires
            self.consistent(),
            self.finished(),
        ensures
            res is Ok <==> self.errors@.len() == 0,
            res is Ok ==> res == Ok::<u32, String>((self.listing.items@.len() % 0x1_0000_0000) as u32),
            match scatter_outcome(self.total as int, texts(self.errors@)) {
                Ok(n) => res == Ok::<u32, String>(n as u32),
                Err(m) => res matches Err(e) && e@ == m,
            },
    {
        if self.errors.len() > 0 {
            Err(u64_text(self.errors.len() as u64).concat(" deletes failed, first error: ").concat(
                self.errors[0].as_str(),
            ))
        } else {
            Ok(self.total)
        }
    }
}

/// Starts a concurrent purge of a collection: the listing of its names
/// first (`listing`), then chunks of `concurrency` single deletes.
/// `concurrency` must not be 0: the names could not be cut into chunks.
pub fn core_delete_collection_concurrent(
    auth_token: &str,
    project: &str,
    collection_path: &str,
    concurrency: usize,
    headers: Option<HashMap<String, String>>,
) -> (res: ConcurrentPurge)
    requires
        concurrency > 0,
    ensures
        res.is_start(auth_token@, project@, collection_path@, concurrency, headers_view(headers)),
{
    ConcurrentPurge {
        listing: Listing {
            auth_token: String::from_str(auth_token),
            project: String::from_str(project),
            collection_path: String::from_str(collection_path),
            headers,
            shape: PageShape::NamesOnly,
            gather: Gather::Names,
            items: Vec::new(),
        },
        concurrency,
        listed: false,
        next: 0,
        awaiting: 0,
        total: 0,
        errors: Vec::new(),
        acknowledged: Ghost(0),
    }
}

} // verus!
