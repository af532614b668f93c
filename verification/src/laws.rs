//! Properties of the library as a whole, each proved from the contracts of
//! the functions it speaks of.

use vstd::prelude::*;

use crate::auth::{or_empty, AuthResponse, RefreshResponse};
use crate::client::child_path;
use crate::firestore::{document_url, field_tree, patch_value, rfc3339_accepts};
use crate::http::{is_success, reply_outcome, HttpReply, ReplyWording};
use crate::json::{escaped, escaped_char, json_string_literal, string_member, texts};
use crate::paging::{
    batch_limit, failures, keep_all, keep_one, lemma_replies_split, page_items, purge_consistent, purge_dispatch,
    purge_on_ack, purge_on_page, purge_step, scatter_failure, scatter_outcome, success_count, ConcurrentPurge, Gather, ListPageView,
    ListProgress, Listing, ListedDocView, PurgeMove, PurgeView,
};
use crate::text::{decimal, find_from, last_segment, occurs_at, parse_i64_spec};

verus! {

/// A document reached through a collection is the document that the client
/// names by the joined path: `collection(p).doc(id)` has the path
/// `p + "/" + id` that `doc(p + "/" + id)` has, when `p` does not end in a
/// slash.
pub proof fn lemma_collection_doc_is_joined_path(p: Seq<char>, id: Seq<char>)
    requires
        p.len() == 0 || p.last() != '/',
    ensures
        child_path(p, id) == p + "/"@ + id,
{
}

/// Leading slashes of a path do not change the URL it names.
pub proof fn lemma_leading_slash_ignored(project: Seq<char>, path: Seq<char>)
    ensures
        document_url(project, seq!['/'] + path) == document_url(project, path),
{
    let s = seq!['/'] + path;
    assert(s.drop_first() =~= path);
}

proof fn lemma_last_segment_has_no_separator(s: Seq<char>, c: char)
    ensures
        !last_segment(s, c).contains(c),
    decreases s.len(),
{
    if s.len() > 0 && s.last() != c {
        lemma_last_segment_has_no_separator(s.drop_last(), c);
        let r = last_segment(s.drop_last(), c);
        assert forall|i: int| 0 <= i < r.push(s.last()).len() implies r.push(s.last())[i] != c by {
            if i < r.len() {
                assert(r[i] != c);
            }
        }
    }
}

/// Document ids are bare: no id that a listing keeps holds a slash.
pub proof fn lemma_document_ids_are_bare(docs: Seq<ListedDocView>)
    ensures
        forall|i: int| 0 <= i < keep_all(Gather::Ids, docs).len() ==> !(#[trigger] keep_all(Gather::Ids, docs)[i]).contains('/'),
    decreases docs.len(),
{
    if docs.len() > 0 {
        lemma_document_ids_are_bare(docs.drop_last());
        let prev = keep_all(Gather::Ids, docs.drop_last());
        let one = keep_one(Gather::Ids, docs.last());
        match docs.last().name {
            Some(n) => lemma_last_segment_has_no_separator(n, '/'),
            None => {},
        }
        assert forall|i: int| 0 <= i < (prev + one).len() implies !(#[trigger] (prev + one)[i]).contains('/') by {
            if i < prev.len() {
                assert((prev + one)[i] == prev[i]);
            } else {
                assert((prev + one)[i] == one[i - prev.len()]);
            }
        }
    }
}

/// A collection purge never sends more than 500 names in one batch, and
/// its count stays the number of names whose batch was acknowledged (as a
/// `u32`): the count it stops with is that number.
pub proof fn lemma_purge_keeps_count(v: PurgeView, reply: HttpReply)
    requires
        purge_consistent(v),
    ensures
        purge_consistent(purge_step(v, reply).0),
        purge_step(v, reply).1 matches PurgeMove::SendBatch(names) ==> 0 < names.len() <= batch_limit(),
        purge_step(v, reply).1 matches PurgeMove::Done(Ok(n)) ==> n == purge_step(v, reply).0.deleted.len()
            % 0x1_0000_0000,
        purge_step(v, reply).0.deleted.len() >= v.deleted.len(),
{
    match reply_outcome(ReplyWording::Standard, reply) {
        Err(_) => {},
        Ok(_) => {
            if !v.awaiting_page {
                let w = PurgeView {
                    total: (v.total + v.in_flight.len()) % 0x1_0000_0000,
                    deleted: v.deleted + v.in_flight,
                    in_flight: Seq::empty(),
                    ..v
                };
                vstd::arithmetic::div_mod::lemma_add_mod_noop(v.deleted.len() as int, v.in_flight.len() as int, 0x1_0000_0000);
                vstd::arithmetic::div_mod::lemma_small_mod(v.in_flight.len(), 0x1_0000_0000);
                assert(purge_consistent(w));
                lemma_dispatch_keeps_count(w);
            } else {
                lemma_dispatch_keeps_count_any(v);
            }
        },
    }
}

proof fn lemma_dispatch_keeps_count(w: PurgeView)
    requires
        purge_consistent(w),
    ensures
        purge_consistent(purge_dispatch(w).0),
        purge_dispatch(w).1 matches PurgeMove::SendBatch(names) ==> 0 < names.len() <= batch_limit(),
        purge_dispatch(w).1 matches PurgeMove::Done(Ok(n)) ==> n == purge_dispatch(w).0.deleted.len() % 0x1_0000_0000,
        purge_dispatch(w).0.deleted == w.deleted,
{
}

proof fn lemma_dispatch_keeps_count_any(v: PurgeView)
    requires
        purge_consistent(v),
    ensures
        forall|p: Seq<Seq<char>>, t: Option<Seq<char>>| #![trigger purge_dispatch(PurgeView { pending: p, next_token: t, ..v })]
            purge_consistent(purge_dispatch(PurgeView { pending: p, next_token: t, ..v }).0)
            && (purge_dispatch(PurgeView { pending: p, next_token: t, ..v }).1 matches PurgeMove::SendBatch(names) ==> 0 < names.len() <= batch_limit())
            && (purge_dispatch(PurgeView { pending: p, next_token: t, ..v }).1 matches PurgeMove::Done(Ok(n)) ==> n == v.deleted.len() % 0x1_0000_0000)
            && purge_dispatch(PurgeView { pending: p, next_token: t, ..v }).0.deleted == v.deleted,
{
}

/// Every call but the identity calls succeeds exactly on a 2xx reply whose
/// body could be read; the result is then that body.
pub proof fn lemma_success_is_2xx(w: ReplyWording, reply: HttpReply)
    requires
        w != ReplyWording::Identity,
    ensures
        reply_outcome(w, reply) is Ok <==> (reply matches HttpReply::Received { status, body: Ok(_), .. } && is_success(status)),
        reply_outcome(w, reply) matches Ok(t) ==> reply matches HttpReply::Received { body: Ok(b), .. } && b@ == t,
{
}

/// A patch writes only the six Firestore value types, and only a value that
/// reads as its type: an integer that fits an `i64`, a number for a double,
/// `true` or `false`, an RFC 3339 timestamp; strings and null take any text.
pub proof fn lemma_patch_types(field_type: Seq<char>, field_value: Seq<char>, double_literal: Option<Seq<char>>)
    ensures
        patch_value(field_type, field_value, double_literal) is Ok <==> {
            ||| field_type == "integerValue"@ && parse_i64_spec(field_value) is Ok
            ||| field_type == "doubleValue"@ && double_literal is Some
            ||| field_type == "booleanValue"@ && (field_value == "true"@ || field_value == "false"@)
            ||| field_type == "stringValue"@
            ||| field_type == "nullValue"@
            ||| field_type == "timestampValue"@ && rfc3339_accepts(field_value)
        },
{
    lemma_value_types_differ();
}

proof fn lemma_value_types_differ()
    ensures
        "integerValue"@ != "doubleValue"@,
        "integerValue"@ != "booleanValue"@,
        "integerValue"@ != "stringValue"@,
        "integerValue"@ != "nullValue"@,
        "integerValue"@ != "timestampValue"@,
        "doubleValue"@ != "booleanValue"@,
        "doubleValue"@ != "stringValue"@,
        "doubleValue"@ != "nullValue"@,
        "doubleValue"@ != "timestampValue"@,
        "booleanValue"@ != "stringValue"@,
        "booleanValue"@ != "nullValue"@,
        "booleanValue"@ != "timestampValue"@,
        "stringValue"@ != "nullValue"@,
        "stringValue"@ != "timestampValue"@,
        "nullValue"@ != "timestampValue"@,
{
    reveal_strlit("integerValue");
    reveal_strlit("doubleValue");
    reveal_strlit("booleanValue");
    reveal_strlit("stringValue");
    reveal_strlit("nullValue");
    reveal_strlit("timestampValue");
    let names = seq!["integerValue"@, "doubleValue"@, "booleanValue"@, "stringValue"@, "nullValue"@, "timestampValue"@];
    assert forall|i: int, j: int| 0 <= i < j < 6 implies names[i] != names[j] by {
        if names[i].len() == names[j].len() {
            assert(names[i][0] != names[j][0]);
        }
    }
    assert(names[0] == "integerValue"@);
    assert(names[1] == "doubleValue"@);
    assert(names[2] == "booleanValue"@);
    assert(names[3] == "stringValue"@);
    assert(names[4] == "nullValue"@);
    assert(names[5] == "timestampValue"@);
}

/// What a patch writes for each type: any text, the empty text included, as
/// a JSON string under `stringValue`; an integer's text as a JSON string
/// under `integerValue`; the double's JSON number under `doubleValue`;
/// `true` or `false` under `booleanValue`; `null` under `nullValue`, whatever
/// the text; an RFC 3339 text as a JSON string under `timestampValue`.
pub proof fn lemma_patch_values(field_value: Seq<char>, double_literal: Option<Seq<char>>)
    ensures
        patch_value("stringValue"@, field_value, double_literal) == Ok::<Seq<char>, Seq<char>>(
            "{\"stringValue\":"@ + json_string_literal(field_value) + "}"@,
        ),
        patch_value("nullValue"@, field_value, double_literal) == Ok::<Seq<char>, Seq<char>>("{\"nullValue\":null}"@),
        parse_i64_spec(field_value) is Ok ==> patch_value("integerValue"@, field_value, double_literal) == Ok::<
            Seq<char>,
            Seq<char>,
        >("{\"integerValue\":"@ + json_string_literal(field_value) + "}"@),
        double_literal matches Some(d) ==> patch_value("doubleValue"@, field_value, double_literal) == Ok::<
            Seq<char>,
            Seq<char>,
        >("{\"doubleValue\":"@ + d + "}"@),
        patch_value("booleanValue"@, "true"@, double_literal) == Ok::<Seq<char>, Seq<char>>(
            "{\"booleanValue\":true}"@,
        ),
        patch_value("booleanValue"@, "false"@, double_literal) == Ok::<Seq<char>, Seq<char>>(
            "{\"booleanValue\":false}"@,
        ),
        rfc3339_accepts(field_value) ==> patch_value("timestampValue"@, field_value, double_literal) == Ok::<
            Seq<char>,
            Seq<char>,
        >("{\"timestampValue\":"@ + json_string_literal(field_value) + "}"@),
{
    lemma_value_types_differ();
    reveal_strlit("true");
    reveal_strlit("false");
    assert("true"@ != "false"@) by {
        assert("true"@.len() != "false"@.len());
    }
}

proof fn lemma_find_first_dot(a: Seq<char>, b: Seq<char>, from: int)
    requires
        0 <= from <= a.len(),
        !a.contains('.'),
    ensures
        find_from(a + seq!['.'] + b, seq!['.'], from) == Some(a.len() as int),
    decreases a.len() - from,
{
    let s = a + seq!['.'] + b;
    if from < a.len() {
        assert(s.subrange(from, from + 1)[0] == a[from]);
        assert(!occurs_at(s, seq!['.'], from));
        lemma_find_first_dot(a, b, from + 1);
    } else {
        assert(s.subrange(from, from + 1) =~= seq!['.']);
    }
}

proof fn lemma_find_no_dot(a: Seq<char>, from: int)
    requires
        0 <= from,
        !a.contains('.'),
    ensures
        find_from(a, seq!['.'], from) is None,
    decreases a.len() + 1 - from,
{
    if from + 1 <= a.len() {
        assert(a.subrange(from, from + 1)[0] == a[from]);
        lemma_find_no_dot(a, from + 1);
    }
}

/// A field path without dots names a top-level field; a dotted path nests:
/// `a.rest` writes `rest` inside the `mapValue` of the field `a`.
pub proof fn lemma_field_path_nesting(a: Seq<char>, rest: Seq<char>, value: Seq<char>)
    requires
        !a.contains('.'),
    ensures
        field_tree(a, value) == "{"@ + json_string_literal(a) + ":"@ + value + "}"@,
        field_tree(a + seq!['.'] + rest, value) == "{"@ + json_string_literal(a) + ":{\"mapValue\":{\"fields\":"@
            + field_tree(rest, value) + "}}}"@,
{
    lemma_find_no_dot(a, 0);
    lemma_find_first_dot(a, rest, 0);
    let s = a + seq!['.'] + rest;
    assert(s.take(a.len() as int) =~= a);
    assert(s.skip(a.len() + 1 as int) =~= rest);
}

/// A concurrent purge answers for every name it listed: at most
/// `concurrency` deletes are ever awaited at once (a chunk is handed out only
/// when none is awaited), and once every chunk was answered, each listed
/// name was either acknowledged or gave one failure, so that with no
/// failure the count is the number of names listed (as a `u32`).
pub proof fn lemma_concurrent_purge_answers_every_name(p: ConcurrentPurge)
    requires
        p.consistent(),
    ensures
        p.awaiting <= p.concurrency,
        p.finished() ==> p.acknowledged@ + p.errors@.len() == p.listing.items@.len(),
        p.finished() && p.errors@.len() == 0 ==> p.total as int == p.listing.items@.len() % 0x1_0000_0000,
{
}

/// A delete of a concurrent purge counts as acknowledged exactly when its
/// reply was received with a 2xx status; every other reply is a failure.
pub proof fn lemma_scatter_success_is_2xx(reply: HttpReply)
    ensures
        scatter_failure(reply) is None <==> (reply matches HttpReply::Received { status, .. } && 200 <= status
            && status <= 299),
{
}

/// Of the replies to a concurrent purge's deletes, the acknowledged ones
/// are those received with a 2xx status and the failures are the others:
/// the two counts add up to the replies, and there is no failure exactly
/// when every reply was a 2xx.
pub proof fn lemma_scatter_counts(replies: Seq<HttpReply>)
    ensures
        success_count(replies) + failures(replies).len() == replies.len(),
        failures(replies).len() == 0 <==> forall|i: int|
            0 <= i < replies.len() ==> (#[trigger] replies[i] matches HttpReply::Received { status, .. } && 200
                <= status && status <= 299),
    decreases replies.len(),
{
    lemma_replies_split(replies);
    if replies.len() > 0 {
        let init = replies.drop_last();
        lemma_scatter_counts(init);
        lemma_scatter_success_is_2xx(replies.last());
        if failures(replies).len() == 0 {
            assert forall|i: int| 0 <= i < replies.len() implies (#[trigger] replies[i] matches HttpReply::Received {
                status,
                ..
            } && 200 <= status && status <= 299) by {
                if i < init.len() {
                    assert(init[i] == replies[i]);
                }
            }
        } else if forall|i: int|
            0 <= i < replies.len() ==> (#[trigger] replies[i] matches HttpReply::Received { status, .. } && 200
                <= status && status <= 299) {
            assert forall|i: int| 0 <= i < init.len() implies (#[trigger] init[i] matches HttpReply::Received {
                status,
                ..
            } && 200 <= status && status <= 299) by {
                assert(init[i] == replies[i]);
            }
            assert(replies[replies.len() - 1] == replies.last());
        }
    }
}

/// The names a listing of documents keeps are those documents' names, in
/// order: when every document has a name, exactly one name each.
pub proof fn lemma_names_are_the_documents_names(docs: Seq<ListedDocView>)
    requires
        forall|i: int| 0 <= i < docs.len() ==> (#[trigger] docs[i]).name is Some,
    ensures
        keep_all(Gather::Names, docs) == docs.map_values(|d: ListedDocView| d.name->0),
    decreases docs.len(),
{
    if docs.len() > 0 {
        let init = docs.drop_last();
        assert forall|i: int| 0 <= i < init.len() implies (#[trigger] init[i]).name is Some by {
            assert(init[i] == docs[i]);
        }
        lemma_names_are_the_documents_names(init);
        assert(docs[docs.len() - 1] == docs.last());
        assert(keep_all(Gather::Names, docs) =~= docs.map_values(|d: ListedDocView| d.name->0));
    }
}

/// A purge deletes every name of every page it lists: taking in a page with
/// documents sends the first batch of the page's names and keeps the rest
/// pending, so that the batch and the pending names are together exactly
/// the names the page lists, in order, whatever was deleted before; the
/// names deleted and the count are unchanged until the batch is acknowledged.
pub proof fn lemma_purge_takes_every_name_of_a_page(v: PurgeView, page: ListPageView, docs: Seq<ListedDocView>)
    requires
        page.parse_failure is None,
        page.documents == Some(docs),
        docs.len() > 0,
    ensures
        ({
            let (w, m) = purge_on_page(v, page);
            &&& w.deleted == v.deleted
            &&& w.total == v.total
            &&& w.next_token == page.next_page_token
            &&& keep_all(Gather::Names, docs).len() > 0 ==> (m matches PurgeMove::SendBatch(b) && b == w.in_flight
                && b + w.pending == keep_all(Gather::Names, docs) && b.len() <= batch_limit())
        }),
{
    let names = keep_all(Gather::Names, docs);
    if names.len() > 0 {
        let k = if names.len() < batch_limit() { names.len() as int } else { batch_limit() };
        assert(names.take(k) + names.skip(k) =~= names);
    }
}

/// Acknowledging a batch moves its names to those deleted, adds them to the
/// count, and loses no pending name: the names deleted, in flight and
/// pending are together the same as before.
pub proof fn lemma_purge_ack_keeps_every_name(v: PurgeView)
    requires
        purge_consistent(v),
        !v.awaiting_page,
    ensures
        ({
            let (w, m) = purge_on_ack(v);
            &&& w.deleted + w.in_flight + w.pending == v.deleted + v.in_flight + v.pending
            &&& w.deleted.len() == v.deleted.len() + v.in_flight.len()
            &&& w.total == w.deleted.len() % 0x1_0000_0000
            &&& m matches PurgeMove::Done(Ok(n)) ==> w.pending.len() == 0 && w.in_flight.len() == 0 && n
                == w.deleted.len() % 0x1_0000_0000
        }),
{
    let u = PurgeView {
        total: (v.total + v.in_flight.len()) % 0x1_0000_0000,
        deleted: v.deleted + v.in_flight,
        in_flight: Seq::empty(),
        ..v
    };
    vstd::arithmetic::div_mod::lemma_add_mod_noop(v.deleted.len() as int, v.in_flight.len() as int, 0x1_0000_0000);
    vstd::arithmetic::div_mod::lemma_small_mod(v.in_flight.len(), 0x1_0000_0000);
    vstd::arithmetic::div_mod::lemma_small_mod(v.total as nat, 0x1_0000_0000);
    if u.pending.len() > 0 {
        let k = if u.pending.len() < batch_limit() { u.pending.len() as int } else { batch_limit() };
        assert(u.pending.take(k) + u.pending.skip(k) =~= u.pending);
        assert(u.deleted + u.pending.take(k) + u.pending.skip(k) =~= v.deleted + v.in_flight + v.pending);
    } else {
        assert(u.deleted + u.in_flight + u.pending =~= v.deleted + v.in_flight + v.pending);
    }
}

/// Taking in a page never drops what earlier pages gave: the items kept so
/// far stay first, in order, and what is kept of the page's documents
/// follows, for every shape of listing.
pub proof fn lemma_listing_keeps_earlier_pages(old: Listing, new: Listing, page: ListPageView, res: ListProgress)
    requires
        new.took_page(old, page, res),
        page.parse_failure is None,
    ensures
        texts(new.items@) == texts(old.items@) + page_items(old.gather, page),
        new.items@.len() == old.items@.len() + page_items(old.gather, page).len(),
        forall|i: int| 0 <= i < old.items@.len() ==> (#[trigger] new.items@[i])@ == old.items@[i]@,
{
    assert(texts(new.items@).len() == new.items@.len());
    assert forall|i: int| 0 <= i < old.items@.len() implies (#[trigger] new.items@[i])@ == old.items@[i]@ by {
        assert(texts(new.items@)[i] == (texts(old.items@) + page_items(old.gather, page))[i]);
    }
}

/// A listing of full documents keeps each document's text, in order.
pub proof fn lemma_texts_are_the_documents(docs: Seq<ListedDocView>)
    ensures
        keep_all(Gather::Texts, docs) == docs.map_values(|d: ListedDocView| d.text),
    decreases docs.len(),
{
    if docs.len() > 0 {
        lemma_texts_are_the_documents(docs.drop_last());
        assert(keep_all(Gather::Texts, docs) =~= docs.map_values(|d: ListedDocView| d.text));
    }
}

/// An email/password response holds the reply's string members: `idToken`,
/// `refreshToken`, `email`, `localId` (as the user id) and `expiresIn`, each
/// empty when the reply lacks it, and the reply itself.
pub proof fn lemma_auth_response_fields(r: AuthResponse, raw: Seq<char>)
    requires
        r.reads(raw),
    ensures
        r.id_token@ == or_empty(string_member(raw, "idToken"@)),
        r.refresh_token@ == or_empty(string_member(raw, "refreshToken"@)),
        r.email@ == or_empty(string_member(raw, "email"@)),
        r.user_id@ == or_empty(string_member(raw, "localId"@)),
        r.expires_in@ == or_empty(string_member(raw, "expiresIn"@)),
        r.raw@ == raw,
{
}

/// A refresh response holds the reply's string members: `id_token`,
/// `access_token`, `refresh_token`, `user_id` and `expires_in`, each empty
/// when the reply lacks it, and the reply itself.
pub proof fn lemma_refresh_response_fields(r: RefreshResponse, raw: Seq<char>)
    requires
        r.reads(raw),
    ensures
        r.id_token@ == or_empty(string_member(raw, "id_token"@)),
        r.access_token@ == or_empty(string_member(raw, "access_token"@)),
        r.refresh_token@ == or_empty(string_member(raw, "refresh_token"@)),
        r.user_id@ == or_empty(string_member(raw, "user_id"@)),
        r.expires_in@ == or_empty(string_member(raw, "expires_in"@)),
        r.raw@ == raw,
{
}

/// The failure a concurrent purge keeps for a delete that was not
/// acknowledged: an unsent request gives `Request failed: ` and the error;
/// a received reply gives `HTTP `, its status line, `: ` and its body (empty
/// when the body could not be read).
pub proof fn lemma_scatter_failure_messages(reply: HttpReply)
    ensures
        reply matches HttpReply::Unsent(e) ==> scatter_failure(reply) == Some("Request failed: "@ + e@),
        reply matches HttpReply::Received { status, status_line, body: Ok(t) } ==> (!(200 <= status && status
            <= 299) ==> scatter_failure(reply) == Some("HTTP "@ + status_line@ + ": "@ + t@)),
        reply matches HttpReply::Received { status, status_line, body: Err(_) } ==> (!(200 <= status && status
            <= 299) ==> scatter_failure(reply) == Some("HTTP "@ + status_line@ + ": "@)),
{
    if let HttpReply::Received { status, status_line, body: Err(_) } = reply {
        assert("HTTP "@ + status_line@ + ": "@ + Seq::<char>::empty() =~= "HTTP "@ + status_line@ + ": "@);
    }
}

/// A concurrent purge succeeds with its count exactly when no delete
/// failed; otherwise it reports how many failed and the first failure.
pub proof fn lemma_scatter_outcome(total: int, errors: Seq<Seq<char>>)
    ensures
        errors.len() == 0 ==> scatter_outcome(total, errors) == Ok::<int, Seq<char>>(total),
        errors.len() > 0 ==> scatter_outcome(total, errors) == Err::<int, Seq<char>>(
            decimal(errors.len() as int) + " deletes failed, first error: "@ + errors[0],
        ),
{
}

/// A listing asks for the next page exactly when the page it took in names
/// one, with that page's token, and is finished otherwise.
pub proof fn lemma_listing_follows_the_page_token(old: Listing, new: Listing, page: ListPageView, res: ListProgress)
    requires
        new.took_page(old, page, res),
        page.parse_failure is None,
    ensures
        page.next_page_token matches Some(t) ==> res matches ListProgress::Send(r) && r@ == new.page_request_spec(
            Some(t),
        ),
        page.next_page_token is None ==> res is Finished,
        new.shape == old.shape && new.gather == old.gather && new.project == old.project && new.collection_path
            == old.collection_path && new.auth_token == old.auth_token,
{
}

/// Text without quotes, backslashes or control characters is written as a
/// JSON string literal as it is, between quotes.
pub proof fn lemma_plain_text_is_quoted_as_is(s: Seq<char>)
    requires
        forall|i: int| 0 <= i < s.len() ==> #[trigger] s[i] != '"' && s[i] != '\\' && (s[i] as u32) >= 0x20,
    ensures
        json_string_literal(s) == "\""@ + s + "\""@,
        escaped(s) == s,
    decreases s.len(),
{
    if s.len() > 0 {
        let init = s.drop_last();
        assert forall|i: int| 0 <= i < init.len() implies #[trigger] init[i] != '"' && init[i] != '\\' && (init[i] as u32)
            >= 0x20 by {
            assert(init[i] == s[i]);
        }
        lemma_plain_text_is_quoted_as_is(init);
        assert(s[s.len() - 1] == s.last());
        assert(escaped(s) =~= s);
    }
}

/// A quote and a backslash are escaped with a backslash, and each control
/// character below U+0020 is escaped, so that the written text never holds
/// a bare control character.
pub proof fn lemma_special_characters_are_escaped(c: char)
    ensures
        c == '"' ==> escaped_char(c) == seq!['\\', '"'],
        c == '\\' ==> escaped_char(c) == seq!['\\', '\\'],
        (c as u32) < 0x20 ==> escaped_char(c)[0] == '\\' && escaped_char(c).len() >= 2,
        (c as u32) >= 0x20 && c != '"' && c != '\\' ==> escaped_char(c) == seq![c],
{
    reveal_strlit("\\\"");
    reveal_strlit("\\\\");
    reveal_strlit("\\b");
    reveal_strlit("\\t");
    reveal_strlit("\\n");
    reveal_strlit("\\f");
    reveal_strlit("\\r");
    reveal_strlit("\\u00");
}

} // verus!
