//! Firebase Authentication: the token refresh and email/password calls,
//! and the responses read from their replies.

use std::collections::HashMap;
use vstd::prelude::*;

use crate::http::{
    complete, headers_view, pairs, reply_outcome, BodyView, Call, HttpMethod, HttpReply, HttpRequest, ReplyWording,
    RequestBody, RequestView,
};
use crate::client::FirestoreClient;
use crate::json::{json_check, json_parse_failure, json_quote, json_string_literal, opt_text, string_member, string_member_of};

verus! {

/// The project handle: the API key that every authentication call sends.
#[derive(Debug)]
pub struct Firebase {
    pub api_key: String,
}

impl Firebase {
    /// A handle for the project with this API key.
    pub fn new(api_key: String) -> (res: Firebase)
        ensures
            res.api_key@ == api_key@,
    {
        Firebase { api_key }
    }

    /// The authentication handle bound to this project's API key.
    pub fn auth(&self) -> (res: Auth)
        ensures
            res.api_key@ == self.api_key@,
    {
        Auth { api_key: self.api_key.clone() }
    }

    /// A Firestore client for `project` that sends `auth_token`.
    pub fn firestore(&self, auth_token: String, project: String) -> (res: FirestoreClient)
        ensures
            res.auth_token@ == auth_token@,
            res.project@ == project@,
    {
        FirestoreClient::new(auth_token, project)
    }
}

/// The authentication handle of a project.
#[derive(Debug)]
pub struct Auth {
    pub api_key: String,
}

/// The URL of the token refresh endpoint for `api_key`.
pub open spec fn refresh_url(api_key: Seq<char>) -> Seq<char> {
    "https://securetoken.googleapis.com/v1/token?key="@ + api_key
}

/// The URL of the Identity Toolkit endpoint `action` for `api_key`.
pub open spec fn identity_url(action: Seq<char>, api_key: Seq<char>) -> Seq<char> {
    "https://identitytoolkit.googleapis.com/v1/accounts:"@ + action + "?key="@ + api_key
}

/// The JSON body of an email/password call.
pub open spec fn credentials_body(email: Seq<char>, password: Seq<char>) -> Seq<char> {
    "{\"email\":"@ + json_string_literal(email) + ",\"password\":"@ + json_string_literal(password)
        + ",\"returnSecureToken\":true}"@
}

/// The request of an email/password call to the Identity Toolkit endpoint `action`.
pub open spec fn credentials_request(
    action: Seq<char>,
    api_key: Seq<char>,
    email: Seq<char>,
    password: Seq<char>,
    headers: Option<HashMap<String, String>>,
) -> RequestView {
    RequestView {
        method: HttpMethod::Post,
        url: identity_url(action, api_key),
        headers: seq![("Content-Type"@, "application/json"@)],
        extra_headers: headers_view(headers),
        body: BodyView::Json(credentials_body(email, password)),
    }
}

fn credentials_call(
    action: &str,
    api_key: &str,
    email: &str,
    password: &str,
    headers: Option<HashMap<String, String>>,
) -> (res: Call)
    ensures
        res.request@ == credentials_request(action@, api_key@, email@, password@, headers),
        res.wording == ReplyWording::Identity,
{
    let url = String::from_str("https://identitytoolkit.googleapis.com/v1/accounts:").concat(action).concat("?key=")
        .concat(api_key);
    let body = String::from_str("{\"email\":").concat(json_quote(email).as_str()).concat(",\"password\":").concat(
        json_quote(password).as_str(),
    ).concat(",\"returnSecureToken\":true}");
    let mut hs: Vec<(String, String)> = Vec::new();
    hs.push((String::from_str("Content-Type"), String::from_str("application/json")));
    proof {
        assert(pairs(hs@) =~= seq![("Content-Type"@, "application/json"@)]);
    }
    Call {
        request: HttpRequest {
            method: HttpMethod::Post,
            url,
            headers: hs,
            extra_headers: headers,
            body: RequestBody::Json(body),
        },
        wording: ReplyWording::Identity,
    }
}

/// Signs in with email and password (`accounts:signInWithPassword`).
pub fn core_email_pwd_sign_in(
    api_key: &str,
    email: &str,
    password: &str,
    headers: Option<HashMap<String, String>>,
) -> (res: Call)
    ensures
        res.request@ == credentials_request("signInWithPassword"@, api_key@, email@, password@, headers),
        res.wording == ReplyWording::Identity,
{
    credentials_call("signInWithPassword", api_key, email, password, headers)
}

/// Creates an account with email and password (`accounts:signUp`).
pub fn core_email_pwd_sign_up(
    api_key: &str,
    email: &str,
    password: &str,
    headers: Option<HashMap<String, String>>,
) -> (res: Call)
    ensures
        res.request@ == credentials_request("signUp"@, api_key@, email@, password@, headers),
        res.wording == ReplyWording::Identity,
{
    credentials_call("signUp", api_key, email, password, headers)
}

/// The request that trades a refresh token for a new ID token: a form post.
pub open spec fn refresh_request(
    api_key: Seq<char>,
    refresh_token: Seq<char>,
    headers: Option<HashMap<String, String>>,
) -> RequestView {
    RequestView {
        method: HttpMethod::Post,
        url: refresh_url(api_key),
        headers: seq![("Content-Type"@, "application/x-www-form-urlencoded"@)],
        extra_headers: headers_view(headers),
        body: BodyView::Form(seq![("grant_type"@, "refresh_token"@), ("refresh_token"@, refresh_token)]),
    }
}

/// Trades a refresh token for a new ID token.
pub fn core_refresh_token(
    api_key: &str,
    refresh_token: &str,
    headers: Option<HashMap<String, String>>,
) -> (res: Call)
    ensures
        res.request@ == refresh_request(api_key@, refresh_token@, headers),
        res.wording == ReplyWording::Identity,
{
    let url = String::from_str("https://securetoken.googleapis.com/v1/token?key=").concat(api_key);
    let mut hs: Vec<(String, String)> = Vec::new();
    hs.push((String::from_str("Content-Type"), String::from_str("application/x-www-form-urlencoded")));
    let mut form: Vec<(String, String)> = Vec::new();
    form.push((String::from_str("grant_type"), String::from_str("refresh_token")));
    form.push((String::from_str("refresh_token"), String::from_str(refresh_token)));
    proof {
        assert(pairs(hs@) =~= seq![("Content-Type"@, "application/x-www-form-urlencoded"@)]);
        assert(pairs(form@) =~= seq![("grant_type"@, "refresh_token"@), ("refresh_token"@, refresh_token@)]);
    }
    Call {
        request: HttpRequest {
            method: HttpMethod::Post,
            url,
            headers: hs,
            extra_headers: headers,
            body: RequestBody::Form(form),
        },
        wording: ReplyWording::Identity,
    }
}

impl Auth {
    /// Signs in with email and password.
    pub fn email_pwd_sign_in(&self, email: &str, password: &str, headers: Option<HashMap<String, String>>) -> (res:
        Call)
        ensures
            res.request@ == credentials_request("signInWithPassword"@, self.api_key@, email@, password@, headers),
            res.wording == ReplyWording::Identity,
    {
        core_email_pwd_sign_in(self.api_key.as_str(), email, password, headers)
    }

    /// Creates an account with email and password.
    pub fn email_pwd_sign_up(&self, email: &str, password: &str, headers: Option<HashMap<String, String>>) -> (res:
        Call)
        ensures
            res.request@ == credentials_request("signUp"@, self.api_key@, email@, password@, headers),
            res.wording == ReplyWording::Identity,
    {
        core_email_pwd_sign_up(self.api_key.as_str(), email, password, headers)
    }

    /// Trades a refresh token for a new ID token.
    pub fn refresh_token_auth(&self, refresh_token: &str, headers: Option<HashMap<String, String>>) -> (res: Call)
        ensures
            res.request@ == refresh_request(self.api_key@, refresh_token@, headers),
            res.wording == ReplyWording::Identity,
    {
        core_refresh_token(self.api_key.as_str(), refresh_token, headers)
    }
}

/// The `Authorization` header that carries an ID token as a bearer credential.
pub open spec fn auth_header_of(id_token: Seq<char>) -> (Seq<char>, Seq<char>) {
    ("Authorization"@, "Bearer "@ + id_token)
}

/// The text of an optional string member, or the empty text.
pub open spec fn or_empty(o: Option<Seq<char>>) -> Seq<char> {
    match o {
        Some(s) => s,
        None => Seq::empty(),
    }
}

fn or_empty_text(o: Option<String>) -> (res: String)
    ensures
        res@ == or_empty(opt_text(o)),
{
    match o {
        Some(s) => s,
        None => String::new(),
    }
}

/// What an email/password call gives: its tokens and account, and its
/// reply as received.
#[derive(Debug)]
pub struct AuthResponse {
    pub id_token: String,
    pub refresh_token: String,
    pub email: String,
    pub user_id: String,
    pub expires_in: String,
    pub auth_header: String,
    pub raw: String,
}

/// What a token refresh gives: its tokens and account, and its reply as
/// received.
#[derive(Debug)]
pub struct RefreshResponse {
    pub id_token: String,
    pub access_token: String,
    pub refresh_token: String,
    pub user_id: String,
    pub expires_in: String,
    pub auth_header: String,
    pub raw: String,
}

impl AuthResponse {
    /// The fields of an email/password reply `raw`, from its string members
    /// `idToken`, `refreshToken`, `email`, `localId` and `expiresIn`: each
    /// empty when missing.
    pub open spec fn holds(
        &self,
        raw: Seq<char>,
        id_token: Option<Seq<char>>,
        refresh_token: Option<Seq<char>>,
        email: Option<Seq<char>>,
        local_id: Option<Seq<char>>,
        expires_in: Option<Seq<char>>,
    ) -> bool {
        &&& self.id_token@ == or_empty(id_token)
        &&& self.refresh_token@ == or_empty(refresh_token)
        &&& self.email@ == or_empty(email)
        &&& self.user_id@ == or_empty(local_id)
        &&& self.expires_in@ == or_empty(expires_in)
        &&& self.auth_header@ == "Bearer "@ + self.id_token@
        &&& self.raw@ == raw
    }

    /// The fields of the email/password reply `raw`, as `serde_json` reads them.
    pub open spec fn reads(&self, raw: Seq<char>) -> bool {
        self.holds(
            raw,
            string_member(raw, "idToken"@),
            string_member(raw, "refreshToken"@),
            string_member(raw, "email"@),
            string_member(raw, "localId"@),
            string_member(raw, "expiresIn"@),
        )
    }

    /// Builds the response from the reply text, the parser's verdict on it
    /// and its string members; refuses text that is not JSON, with the
    /// parser's message.
    pub fn from_members(
        raw: String,
        parse_failure: Option<String>,
        id_token: Option<String>,
        refresh_token: Option<String>,
        email: Option<String>,
        local_id: Option<String>,
        expires_in: Option<String>,
    ) -> (res: Result<AuthResponse, String>)
        ensures
            match opt_text(parse_failure) {
                Some(e) => res matches Err(m) && m@ == e,
                None => res matches Ok(r) && r.holds(
                    raw@,
                    opt_text(id_token),
                    opt_text(refresh_token),
                    opt_text(email),
                    opt_text(local_id),
                    opt_text(expires_in),
                ),
            },
    {
        match parse_failure {
            Some(e) => return Err(e),
            None => {},
        }
        let id_token = or_empty_text(id_token);
        let auth_header = String::from_str("Bearer ").concat(id_token.as_str());
        Ok(
            AuthResponse {
                id_token,
                refresh_token: or_empty_text(refresh_token),
                email: or_empty_text(email),
                user_id: or_empty_text(local_id),
                expires_in: or_empty_text(expires_in),
                auth_header,
                raw,
            },
        )
    }

    /// Reads an email/password reply; refuses text that is not JSON, with
    /// the parser's message.
    pub fn from_raw(raw: String) -> (res: Result<AuthResponse, String>)
        ensures
            match json_parse_failure(raw@) {
                Some(e) => res matches Err(m) && m@ == e,
                None => res matches Ok(r) && r.reads(raw@),
            },
    {
        let parse_failure = json_check(raw.as_str());
        let id_token = string_member_of(raw.as_str(), "idToken");
        let refresh_token = string_member_of(raw.as_str(), "refreshToken");
        let email = string_member_of(raw.as_str(), "email");
        let local_id = string_member_of(raw.as_str(), "localId");
        let expires_in = string_member_of(raw.as_str(), "expiresIn");
        AuthResponse::from_members(raw, parse_failure, id_token, refresh_token, email, local_id, expires_in)
    }

    /// Reads the reply of an email/password call.
    pub fn from_reply(reply: HttpReply) -> (res: Result<AuthResponse, String>)
        ensures
            match reply_outcome(ReplyWording::Identity, reply) {
                Err(m) => res matches Err(e) && e@ == m,
                Ok(raw) => match json_parse_failure(raw) {
                    Some(e) => res matches Err(m) && m@ == e,
                    None => res matches Ok(r) && r.reads(raw),
                },
            },
    {
        match complete(ReplyWording::Identity, reply) {
            Ok(raw) => AuthResponse::from_raw(raw),
            Err(e) => Err(e),
        }
    }

    /// The `Authorization` header that carries the ID token.
    pub fn get_auth_header(&self) -> (res: (String, String))
        ensures
            (res.0@, res.1@) == auth_header_of(self.id_token@),
    {
        (String::from_str("Authorization"), String::from_str("Bearer ").concat(self.id_token.as_str()))
    }
}

impl RefreshResponse {
    /// The fields of a refresh reply `raw`, from its string members
    /// `id_token`, `access_token`, `refresh_token`, `user_id` and
    /// `expires_in`: each empty when missing.
    pub open spec fn holds(
        &self,
        raw: Seq<char>,
        id_token: Option<Seq<char>>,
        access_token: Option<Seq<char>>,
        refresh_token: Option<Seq<char>>,
        user_id: Option<Seq<char>>,
        expires_in: Option<Seq<char>>,
    ) -> bool {
        &&& self.id_token@ == or_empty(id_token)
        &&& self.access_token@ == or_empty(access_token)
        &&& self.refresh_token@ == or_empty(refresh_token)
        &&& self.user_id@ == or_empty(user_id)
        &&& self.expires_in@ == or_empty(expires_in)
        &&& self.auth_header@ == "Bearer "@ + self.id_token@
        &&& self.raw@ == raw
    }

    /// The fields of the refresh reply `raw`, as `serde_json` reads them.
    pub open spec fn reads(&self, raw: Seq<char>) -> bool {
        self.holds(
            raw,
            string_member(raw, "id_token"@),
            string_member(raw, "access_token"@),
            string_member(raw, "refresh_token"@),
            string_member(raw, "user_id"@),
            string_member(raw, "expires_in"@),
        )
    }

    /// Builds the response from the reply text, the parser's verdict on it
    /// and its string members; refuses text that is not JSON, with the
    /// parser's message.
    pub fn from_members(
        raw: String,
        parse_failure: Option<String>,
        id_token: Option<String>,
        access_token: Option<String>,
        refresh_token: Option<String>,
        user_id: Option<String>,
        expires_in: Option<String>,
    ) -> (res: Result<RefreshResponse, String>)
        ensures
            match opt_text(parse_failure) {
                Some(e) => res matches Err(m) && m@ == e,
                None => res matches Ok(r) && r.holds(
                    raw@,
                    opt_text(id_token),
                    opt_text(access_token),
                    opt_text(refresh_token),
                    opt_text(user_id),
                    opt_text(expires_in),
                ),
            },
    {
        match parse_failure {
            Some(e) => return Err(e),
            None => {},
        }
        let id_token = or_empty_text(id_token);
        let auth_header = String::from_str("Bearer ").concat(id_token.as_str());
        Ok(
            RefreshResponse {
                id_token,
                access_token: or_empty_text(access_token),
                refresh_token: or_empty_text(refresh_token),
                user_id: or_empty_text(user_id),
                expires_in: or_empty_text(expires_in),
                auth_header,
                raw,
            },
        )
    }

    /// Reads a refresh reply; refuses text that is not JSON, with the
    /// parser's message.
    pub fn from_raw(raw: String) -> (res: Result<RefreshResponse, String>)
        ensures
            match json_parse_failure(raw@) {
                Some(e) => res matches Err(m) && m@ == e,
                None => res matches Ok(r) && r.reads(raw@),
            },
    {
        let parse_failure = json_check(raw.as_str());
        let id_token = string_member_of(raw.as_str(), "id_token");
        let access_token = string_member_of(raw.as_str(), "access_token");
        let refresh_token = string_member_of(raw.as_str(), "refresh_token");
        let user_id = string_member_of(raw.as_str(), "user_id");
        let expires_in = string_member_of(raw.as_str(), "expires_in");
        RefreshResponse::from_members(raw, parse_failure, id_token, access_token, refresh_token, user_id, expires_in)
    }

    /// Reads the reply of a token refresh.
    pub fn from_reply(reply: HttpReply) -> (res: Result<RefreshResponse, String>)
        ensures
            match reply_outcome(ReplyWording::Identity, reply) {
                Err(m) => res matches Err(e) && e@ == m,
                Ok(raw) => match json_parse_failure(raw) {
                    Some(e) => res matches Err(m) && m@ == e,
                    None => res matches Ok(r) && r.reads(raw),
                },
            },
    {
        match complete(ReplyWording::Identity, reply) {
            Ok(raw) => RefreshResponse::from_raw(raw),
            Err(e) => Err(e),
        }
    }

    /// The `Authorization` header that carries the ID token.
    pub fn get_auth_header(&self) -> (res: (String, String))
        ensures
            (res.0@, res.1@) == auth_header_of(self.id_token@),
    {
        (String::from_str("Authorization"), String::from_str("Bearer ").concat(self.id_token.as_str()))
    }
}

} // verus!
