use firre::auth::{
    core_email_pwd_sign_in, core_email_pwd_sign_up, core_refresh_token, AuthResponse, Firebase, RefreshResponse,
};
use firre::http::{HttpMethod, HttpReply, ReplyWording, RequestBody};

fn ok(text: &str) -> HttpReply {
    HttpReply::Received { status: 200, status_line: "200 OK".to_string(), body: Ok(text.to_string()) }
}

#[test]
fn firebase_hands_out_an_auth_bound_to_its_key() {
    let frb = Firebase::new("KEY".to_string());
    assert_eq!(frb.auth().api_key, "KEY");
}

#[test]
fn refresh_posts_a_form() {
    let call = core_refresh_token("KEY", "RT", None);
    assert_eq!(call.request.method, HttpMethod::Post);
    assert_eq!(call.request.url, "https://securetoken.googleapis.com/v1/token?key=KEY");
    assert_eq!(
        call.request.headers,
        vec![("Content-Type".to_string(), "application/x-www-form-urlencoded".to_string())]
    );
    match &call.request.body {
        RequestBody::Form(f) => assert_eq!(
            f,
            &vec![
                ("grant_type".to_string(), "refresh_token".to_string()),
                ("refresh_token".to_string(), "RT".to_string())
            ]
        ),
        other => panic!("unexpected {other:?}"),
    }
    assert_eq!(call.wording, ReplyWording::Identity);
    let auth = Firebase::new("KEY".to_string()).auth();
    assert_eq!(auth.refresh_token_auth("RT", None).request.url, call.request.url);
}

#[test]
fn email_calls_post_credentials() {
    let call = core_email_pwd_sign_in("KEY", "a@b.c", "p\"w", None);
    assert_eq!(call.request.url, "https://identitytoolkit.googleapis.com/v1/accounts:signInWithPassword?key=KEY");
    match &call.request.body {
        RequestBody::Json(t) => {
            assert_eq!(t, "{\"email\":\"a@b.c\",\"password\":\"p\\\"w\",\"returnSecureToken\":true}")
        },
        other => panic!("unexpected {other:?}"),
    }
    let call = core_email_pwd_sign_up("KEY", "a@b.c", "pw", None);
    assert_eq!(call.request.url, "https://identitytoolkit.googleapis.com/v1/accounts:signUp?key=KEY");
}

#[test]
fn refresh_reply_gives_its_tokens() {
    let raw = "{\"id_token\":\"I\",\"access_token\":\"I\",\"refresh_token\":\"R\",\"user_id\":\"U\",\"expires_in\":\"3600\"}";
    let r = RefreshResponse::from_reply(ok(raw)).unwrap();
    assert_eq!(r.id_token, "I");
    assert_eq!(r.access_token, "I");
    assert_eq!(r.refresh_token, "R");
    assert_eq!(r.user_id, "U");
    assert_eq!(r.expires_in, "3600");
    assert_eq!(r.raw, raw);
    assert_eq!(r.get_auth_header(), ("Authorization".to_string(), "Bearer I".to_string()));
}

#[test]
fn sign_in_reply_gives_its_account() {
    let raw = "{\"idToken\":\"T\",\"refreshToken\":\"R\",\"localId\":\"L\",\"expiresIn\":3600}";
    let r = AuthResponse::from_reply(ok(raw)).unwrap();
    assert_eq!(r.id_token, "T");
    assert_eq!(r.refresh_token, "R");
    assert_eq!(r.user_id, "L");
    assert_eq!(r.email, "");
    assert_eq!(r.expires_in, "");
    assert_eq!(r.auth_header, "Bearer T");
    assert_eq!(r.get_auth_header(), ("Authorization".to_string(), "Bearer T".to_string()));
}

#[test]
fn failed_identity_calls_give_errors() {
    let err = AuthResponse::from_reply(ok("{\"error\":{\"message\":\"INVALID_PASSWORD\"}}")).unwrap_err();
    assert_eq!(err, "INVALID_PASSWORD");
    let err = RefreshResponse::from_reply(HttpReply::Received {
        status: 400,
        status_line: "400 Bad Request".to_string(),
        body: Ok("{}".to_string()),
    })
    .unwrap_err();
    assert_eq!(err, "HTTP 400 Bad Request: {}");
    let msg = serde_json::from_str::<serde_json::Value>("oops").unwrap_err().to_string();
    assert_eq!(AuthResponse::from_raw("oops".to_string()).unwrap_err(), msg);
}

#[test]
fn firebase_hands_out_a_firestore_client() {
    let frb = Firebase::new("key".to_string());
    let store = frb.firestore("tok".to_string(), "proj".to_string());
    assert_eq!(store.auth_token, "tok");
    assert_eq!(store.project, "proj");
    let doc = store.doc("users/abc123".to_string());
    assert_eq!(doc.path, "users/abc123");
}
