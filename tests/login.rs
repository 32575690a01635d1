use monster_sdk::auth::{
    is_logged_out, plan_restore, redirect_query, AuthPhase, Login, LoginMethod, LogoutReply,
    SessionBlob, SessionKind, REDIRECT_PORT,
};
use monster_sdk::identity::{add_to_unresolved, needs_resolving, UnresolvedTable};

#[test]
fn redirect_query_is_read_from_the_request_line() {
    assert_eq!(
        redirect_query("GET /?code=abc&state=xyz HTTP/1.1\r\n"),
        Some("code=abc&state=xyz".to_string())
    );
    assert_eq!(redirect_query("GET /?code=abc&state=xyz"), Some("code=abc&state=xyz".to_string()));
    assert_eq!(redirect_query("GET / HTTP/1.1"), None);
    assert_eq!(redirect_query("GET"), None);
    assert_eq!(redirect_query(""), None);
    assert_eq!(redirect_query("GET /? HTTP/1.0"), Some(String::new()));
}

#[test]
fn password_login_announces_the_account() {
    let mut login = Login::password("@alice:example.org".to_string());
    assert_eq!(login.phase(), AuthPhase::Authenticating);
    assert_eq!(login.method(), LoginMethod::Password);
    assert!(login.url_ready("https://x".to_string()).is_none());
    let done = login.login_succeeded("@alice:example.org".to_string()).unwrap();
    assert_eq!(done.connected, "@alice:example.org");
    assert!(done.record.is_none());
    assert_eq!(login.phase(), AuthPhase::Authenticated);
    assert!(login.login_succeeded("@alice:example.org".to_string()).is_none());
    login.fail();
    assert_eq!(login.phase(), AuthPhase::Authenticated);
}

#[test]
fn failed_password_login_is_abandoned() {
    let mut login = Login::password("@alice:example.org".to_string());
    login.fail();
    assert_eq!(login.phase(), AuthPhase::Failed);
    assert!(login.login_succeeded("@alice:example.org".to_string()).is_none());
}

#[test]
fn authorization_code_login_records_one_entry() {
    let mut login = Login::authorization_code("example.org".to_string(), "T0KEN".to_string());
    assert!(login.login_succeeded("@alice:example.org".to_string()).is_none());
    let (server, url) = login.url_ready("https://auth.example.org/authorize".to_string()).unwrap();
    assert_eq!(server, "example.org");
    assert_eq!(url, "https://auth.example.org/authorize");
    assert_eq!(login.phase(), AuthPhase::AwaitingRedirect);
    let query = login.redirect_received("GET /?code=abc&state=xyz HTTP/1.1").unwrap();
    assert_eq!(query, "code=abc&state=xyz");
    assert_eq!(login.phase(), AuthPhase::Exchanging);
    let done = login.login_succeeded("@alice:example.org".to_string()).unwrap();
    assert_eq!(done.connected, "@alice:example.org");
    let (id, token) = done.record.unwrap();
    assert_eq!(id, "@alice:example.org");
    assert_eq!(token, "T0KEN");
    let text = add_to_unresolved(None, id, token);
    let table = UnresolvedTable::from_json(&text).unwrap();
    assert_eq!(table.get(&"@alice:example.org".to_string()), Some("T0KEN".to_string()));
    assert_eq!(text, r#"{"@alice:example.org":"T0KEN"}"#);
    assert_eq!(
        needs_resolving(Some(&text), &"@alice:example.org".to_string()),
        Ok(Some("T0KEN".to_string()))
    );
}

#[test]
fn bad_redirect_fails_the_login() {
    let mut login = Login::authorization_code("example.org".to_string(), "t".to_string());
    login.url_ready("u".to_string()).unwrap();
    assert_eq!(login.redirect_received("garbage"), None);
    assert_eq!(login.phase(), AuthPhase::Failed);
    assert!(login.login_succeeded("@a:x".to_string()).is_none());
}

#[test]
fn restore_login_announces_the_account() {
    let mut login = Login::restore("@bob:example.org".to_string());
    let done = login.login_succeeded("@bob:example.org".to_string()).unwrap();
    assert_eq!(done.connected, "@bob:example.org");
    assert!(done.record.is_none());
}

#[test]
fn logout_outcomes() {
    assert!(is_logged_out(LogoutReply::Success));
    assert!(is_logged_out(LogoutReply::Rejected { status: 401, unknown_token: true }));
    assert!(!is_logged_out(LogoutReply::Rejected { status: 401, unknown_token: false }));
    assert!(!is_logged_out(LogoutReply::Rejected { status: 500, unknown_token: true }));
    assert!(!is_logged_out(LogoutReply::Unreachable));
    assert_eq!(REDIRECT_PORT, 18779);
}

fn blob(kind: SessionKind) -> SessionBlob {
    SessionBlob {
        kind,
        user_id: "@alice:example.org".to_string(),
        device_id: "DEVICE".to_string(),
        access_token: "at".to_string(),
        refresh_token: Some("rt".to_string()),
    }
}

#[test]
fn restore_of_an_authorization_code_session_consumes_its_entry() {
    let b = blob(SessionKind::AuthorizationCode { client_id: "cid".to_string() });
    let text = add_to_unresolved(None, "@alice:example.org".to_string(), "tok".to_string());
    let plan = plan_restore("/s", &b, Some(&text));
    assert_eq!(plan.store_dir, "/s/Arctic/monster/@alice:example.org");
    let (from, to) = plan.reconciliation.rename.unwrap();
    assert_eq!(from, "/s/Arctic/monster/tok");
    assert_eq!(to, "/s/Arctic/monster/@alice:example.org");
    assert_eq!(plan.reconciliation.table_text.unwrap(), "{}");
    let broken = plan_restore("/s", &b, Some("oops"));
    assert!(broken.table_malformed);
    assert!(broken.reconciliation.rename.is_none() && broken.reconciliation.table_text.is_none());
    assert_eq!(broken.store_dir, "/s/Arctic/monster/@alice:example.org");
}

#[test]
fn restore_of_a_password_session_consumes_its_entry_too() {
    let b = blob(SessionKind::Native);
    let text = add_to_unresolved(None, "@alice:example.org".to_string(), "tok".to_string());
    let plan = plan_restore("/s", &b, Some(&text));
    assert_eq!(plan.store_dir, "/s/Arctic/monster/@alice:example.org");
    let (from, to) = plan.reconciliation.rename.unwrap();
    assert_eq!(from, "/s/Arctic/monster/tok");
    assert_eq!(to, "/s/Arctic/monster/@alice:example.org");
    assert_eq!(plan.reconciliation.table_text.unwrap(), "{}");
    let broken = plan_restore("/s", &b, Some("oops"));
    assert!(broken.table_malformed);
    assert!(broken.reconciliation.rename.is_none() && broken.reconciliation.table_text.is_none());
    assert_eq!(broken.store_dir, "/s/Arctic/monster/@alice:example.org");
    let none = plan_restore("/s", &b, None);
    assert!(!none.table_malformed);
    assert!(none.reconciliation.rename.is_none() && none.reconciliation.table_text.is_none());
}

#[test]
fn authorization_code_login_announces_the_resolved_account() {
    let mut login = Login::authorization_code("matrix.example.org".to_string(), "t".to_string());
    login.url_ready("u".to_string()).unwrap();
    login.redirect_received("GET /?code=c&state=s HTTP/1.1").unwrap();
    let done = login.login_succeeded("@carol:example.org".to_string()).unwrap();
    assert_eq!(done.connected, "@carol:example.org");
    assert_eq!(done.record.unwrap().0, "@carol:example.org");
}

#[test]
fn restore_without_an_entry_renames_nothing() {
    let b = blob(SessionKind::AuthorizationCode { client_id: "cid".to_string() });
    let text = add_to_unresolved(None, "@bob:example.org".to_string(), "tok".to_string());
    let plan = plan_restore("/s", &b, Some(&text));
    assert!(!plan.table_malformed);
    assert!(plan.reconciliation.rename.is_none());
    assert!(plan.reconciliation.table_text.is_none());
    assert_eq!(plan.store_dir, "/s/Arctic/monster/@alice:example.org");
}
