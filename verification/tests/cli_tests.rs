use firre::cli::{
    command_call, AuthCommand, Cli, Cmd, EmailPassSignInArgs, EmailPassSignUpArgs, FirestoreCommand,
    FirestoreGetArgs, FirestorePatchArgs, RefreshTokenArgs,
};
use firre::http::{HttpMethod, ReplyWording, RequestBody};

fn cli(command: Cmd) -> Cli {
    Cli { api_key: "KEY".to_string(), command }
}

#[test]
fn auth_commands_call_the_identity_endpoints() {
    let c = command_call(
        &cli(Cmd::Auth { command: AuthCommand::RefreshToken(RefreshTokenArgs { refresh_token: "RT".to_string() }) }),
        None,
    )
    .unwrap();
    assert_eq!(c.request.url, "https://securetoken.googleapis.com/v1/token?key=KEY");
    assert_eq!(c.wording, ReplyWording::Identity);
    let c = command_call(
        &cli(Cmd::Auth {
            command: AuthCommand::EmailPassSignIn(EmailPassSignInArgs {
                email: "e".to_string(),
                password: "p".to_string(),
            }),
        }),
        None,
    )
    .unwrap();
    assert!(c.request.url.contains("accounts:signInWithPassword"));
    let c = command_call(
        &cli(Cmd::Auth {
            command: AuthCommand::EmailPassSignUp(EmailPassSignUpArgs {
                email: "e".to_string(),
                password: "p".to_string(),
            }),
        }),
        None,
    )
    .unwrap();
    assert!(c.request.url.contains("accounts:signUp"));
}

#[test]
fn firestore_commands_get_and_patch() {
    let c = command_call(
        &cli(Cmd::Firestore {
            command: FirestoreCommand::Get(FirestoreGetArgs {
                project: "proj".to_string(),
                auth_token: "tok".to_string(),
                path: "users/uid123".to_string(),
            }),
        }),
        None,
    )
    .unwrap();
    assert_eq!(c.request.method, HttpMethod::Get);
    assert_eq!(
        c.request.url,
        "https://firestore.googleapis.com/v1/projects/proj/databases/(default)/documents/users/uid123"
    );
    assert_eq!(c.request.extra_headers, None);
    let patch = |t: &str, v: &str| {
        cli(Cmd::Firestore {
            command: FirestoreCommand::Patch(FirestorePatchArgs {
                project: "proj".to_string(),
                auth_token: "tok".to_string(),
                path: "users/uid123".to_string(),
                field_path: "address.city".to_string(),
                field_type: t.to_string(),
                field_value: v.to_string(),
            }),
        })
    };
    let c = command_call(&patch("stringValue", "Oslo"), None).unwrap();
    assert!(matches!(&c.request.body, RequestBody::Json(t)
        if t == "{\"fields\":{\"address\":{\"mapValue\":{\"fields\":{\"city\":{\"stringValue\":\"Oslo\"}}}}}}"));
    assert_eq!(command_call(&patch("booleanValue", "maybe"), None).map(|_| ()), Err("Invalid boolean: maybe".to_string()));
}
