//! The command line of the `firre` program: its arguments, and the call
//! each command makes.

use vstd::prelude::*;

use crate::auth::{core_email_pwd_sign_in, core_email_pwd_sign_up, core_refresh_token, credentials_request, refresh_request};
use crate::firestore::{
    bare_request, core_get, core_patch, document_url, field_patch_url, field_tree, json_request, patch_value,
};
use crate::http::{Call, HttpMethod, ReplyWording};
use crate::json::opt_text;

verus! {

/// The program's arguments: the project's API key and a command.
#[derive(Debug)]
pub struct Cli {
    pub api_key: String,
    pub command: Cmd,
}

/// A command: about authentication or about Firestore.
#[derive(Debug)]
pub enum Cmd {
    Auth { command: AuthCommand },
    Firestore { command: FirestoreCommand },
}

/// A Firestore command.
#[derive(Debug)]
pub enum FirestoreCommand {
    Get(FirestoreGetArgs),
    Patch(FirestorePatchArgs),
}

/// Which document to fetch, in which project, with which ID token.
#[derive(Debug)]
pub struct FirestoreGetArgs {
    pub project: String,
    pub auth_token: String,
    pub path: String,
}

/// Which field of which document to write, and its type and value.
#[derive(Debug)]
pub struct FirestorePatchArgs {
    pub project: String,
    pub auth_token: String,
    pub path: String,
    pub field_path: String,
    pub field_type: String,
    pub field_value: String,
}

/// An authentication command.
#[derive(Debug)]
pub enum AuthCommand {
    RefreshToken(RefreshTokenArgs),
    EmailPassSignIn(EmailPassSignInArgs),
    EmailPassSignUp(EmailPassSignUpArgs),
}

/// The account to create.
#[derive(Debug)]
pub struct EmailPassSignUpArgs {
    pub email: String,
    pub password: String,
}

/// The account to sign in to.
#[derive(Debug)]
pub struct EmailPassSignInArgs {
    pub email: String,
    pub password: String,
}

/// The refresh token to trade.
#[derive(Debug)]
pub struct RefreshTokenArgs {
    pub refresh_token: String,
}

/// The call a command makes, sending none of the caller's own headers; a
/// patch whose type or value is refused gives the refusal.
/// `double_literal` is the JSON number that a patch's value denotes when it
/// reads as a floating-point number.
pub fn command_call(cli: &Cli, double_literal: Option<String>) -> (res: Result<Call, String>)
    ensures
        match &cli.command {
            Cmd::Auth { command: AuthCommand::RefreshToken(a) } => res matches Ok(c)
                && c.request@ == refresh_request(cli.api_key@, a.refresh_token@, None)
                && c.wording == ReplyWording::Identity,
            Cmd::Auth { command: AuthCommand::EmailPassSignIn(a) } => res matches Ok(c)
                && c.request@ == credentials_request("signInWithPassword"@, cli.api_key@, a.email@, a.password@, None)
                && c.wording == ReplyWording::Identity,
            Cmd::Auth { command: AuthCommand::EmailPassSignUp(a) } => res matches Ok(c)
                && c.request@ == credentials_request("signUp"@, cli.api_key@, a.email@, a.password@, None)
                && c.wording == ReplyWording::Identity,
            Cmd::Firestore { command: FirestoreCommand::Get(a) } => res matches Ok(c)
                && c.request@ == bare_request(HttpMethod::Get, document_url(a.project@, a.path@), a.auth_token@, None)
                && c.wording == ReplyWording::Standard,
            Cmd::Firestore { command: FirestoreCommand::Patch(a) } => match patch_value(
                a.field_type@,
                a.field_value@,
                opt_text(double_literal),
            ) {
                Ok(v) => res matches Ok(c) && c.wording == ReplyWording::Standard && c.request@ == json_request(
                    HttpMethod::Patch,
                    field_patch_url(a.project@, a.path@, a.field_path@),
                    a.auth_token@,
                    None,
                    "{\"fields\":"@ + field_tree(a.field_path@, v) + "}"@,
                ),
                Err(m) => res matches Err(e) && e@ == m,
            },
        },
{
    match &cli.command {
        Cmd::Auth { command } => match command {
            AuthCommand::RefreshToken(a) => Ok(core_refresh_token(cli.api_key.as_str(), a.refresh_token.as_str(), None)),
            AuthCommand::EmailPassSignIn(a) => Ok(
                core_email_pwd_sign_in(cli.api_key.as_str(), a.email.as_str(), a.password.as_str(), None),
            ),
            AuthCommand::EmailPassSignUp(a) => Ok(
                core_email_pwd_sign_up(cli.api_key.as_str(), a.email.as_str(), a.password.as_str(), None),
            ),
        },
        Cmd::Firestore { command } => match command {
            FirestoreCommand::Get(a) => Ok(core_get(a.auth_token.as_str(), a.project.as_str(), a.path.as_str(), None)),
            FirestoreCommand::Patch(a) => core_patch(
                a.auth_token.as_str(),
                a.project.as_str(),
                a.path.as_str(),
                a.field_type.as_str(),
                a.field_path.as_str(),
                a.field_value.as_str(),
                double_literal,
                None,
            ),
        },
    }
}

} // verus!
