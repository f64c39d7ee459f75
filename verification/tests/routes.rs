use axum::http::{header, HeaderMap, HeaderValue};
use axum::response::IntoResponse;
use axum_extra::extract::cookie::CookieJar;
use goodwe_web::goodwe::fetch::{FetchError, FetchResult};
use goodwe_web::goodwe::login::{finish_login, LoginError};
use goodwe_web::goodwe::record::Record;
use goodwe_web::goodwe::token::TokenData;
use goodwe_web::routes::{
    apply_change, fetch_records, login, logout, make_cookie, open_session, open_token,
    removal_cookie, session_text, status, CookieChange, FetchResponse, LoginRequest, LoginResponse, SessionCookie, StatusResponse,
    COOKIE_NAME,
};

fn session() -> SessionCookie {
    SessionCookie { token_json: "{\"uid\":\"u\"}".to_owned(), username: "ann".to_owned() }
}

fn request() -> LoginRequest {
    LoginRequest { username: "ann".to_owned(), password: "secret".to_owned() }
}

fn refusal(r: FetchResponse<f64>) -> (bool, String, bool) {
    match r {
        FetchResponse::Failure { ok, error, session_expired } => (ok, error, session_expired),
        FetchResponse::Success { .. } => panic!("no refusal"),
    }
}

#[test]
fn session_cookies_hold_the_session() {
    let c = make_cookie(&session());
    assert_eq!(c.name, COOKIE_NAME);
    assert_eq!(c.name, "gw_session");
    assert_eq!(c.value, r#"{"token_json":"{\"uid\":\"u\"}","username":"ann"}"#);
    assert_eq!(c.path, "/");
    assert_eq!(c.http_only, Some(true));
}

#[test]
fn removal_cookies_address_the_session_cookie() {
    let c = removal_cookie();
    let s = make_cookie(&session());
    assert_eq!((c.name, c.path), (s.name, s.path));
    assert_eq!(c.value, "");
    assert_eq!(c.http_only, None);
}

#[test]
fn status_tells_the_name() {
    match status(Some(session())) {
        StatusResponse::LoggedIn { logged_in, username } => {
            assert!(logged_in);
            assert_eq!(username, "ann");
        }
        StatusResponse::LoggedOut { .. } => panic!("signed out"),
    }
    assert!(matches!(status(None), StatusResponse::LoggedOut { logged_in: false }));
}

#[test]
fn a_login_that_went_through_signs_in() {
    let outcome = finish_login("{}".to_owned(), Ok(TokenData::default()));
    let (change, response) = login(request(), outcome);
    match response {
        LoginResponse::Success { ok, username } => {
            assert!(ok);
            assert_eq!(username, "ann");
        }
        LoginResponse::Failure { .. } => panic!("failed"),
    }
    match change {
        CookieChange::Store(sc) => {
            assert_eq!(sc.token_json, "{}");
            assert_eq!(sc.username, "ann");
            assert!(matches!(status(Some(sc)), StatusResponse::LoggedIn { logged_in: true, .. }));
        }
        _ => panic!("not stored"),
    }
}

#[test]
fn a_failed_login_tells_why() {
    let (change, response) = login(request(), Err(LoginError::MissingData));
    assert!(matches!(change, CookieChange::Keep));
    match response {
        LoginResponse::Failure { ok, error } => {
            assert!(!ok);
            assert_eq!(error, "Login response missing 'data'");
        }
        LoginResponse::Success { .. } => panic!("went through"),
    }
}

#[test]
fn logout_removes_the_cookie() {
    let (change, response) = logout();
    assert!(matches!(change, CookieChange::Remove));
    assert!(response.ok);
}

#[test]
fn a_fetch_needs_a_session() {
    let sc = open_session::<f64>(Some(session())).unwrap();
    assert_eq!(sc.username, "ann");
    let (change, response) = open_session(None).unwrap_err();
    assert!(matches!(change, CookieChange::Keep));
    assert_eq!(
        refusal(response),
        (false, "Not signed in.".to_owned(), true)
    );
}

#[test]
fn a_fetch_needs_a_readable_token() {
    assert!(open_token::<f64>(Ok(TokenData::default())).is_ok());
    let (change, response) = open_token(Err("expected value".to_owned())).unwrap_err();
    assert!(matches!(change, CookieChange::Keep));
    assert_eq!(
        refusal(response),
        (false, "Corrupt session cookie: expected value".to_owned(), true)
    );
}

#[test]
fn fetched_records_are_sent_as_they_are() {
    let record = |session: usize, green: f64| Record {
        session,
        start: "s".to_owned(),
        end: "e".to_owned(),
        duration_min: 3,
        total_kwh: 2.5,
        green_kwh: green,
        import_kwh: 0.5,
        range_km: 12.0,
        end_cause: "full".to_owned(),
    };
    let (change, response) = fetch_records(Ok(FetchResult {
        records: vec![record(1, 1.5), record(2, 0.25)],
        total_green_kwh: 1.75,
        total_import_kwh: 1.0,
    }));
    assert!(matches!(change, CookieChange::Keep));
    match response {
        FetchResponse::Success { ok, records, total_green_kwh, total_import_kwh } => {
            assert!(ok);
            assert_eq!(total_green_kwh, 1.75);
            assert_eq!(total_import_kwh, 1.0);
            assert_eq!(records.len(), 2);
            assert_eq!(records[1].session, 2);
            assert_eq!(records[1].start, "s");
            assert_eq!(records[1].end, "e");
            assert_eq!(records[1].duration_min, 3);
            assert_eq!(records[1].total_kwh, 2.5);
            assert_eq!(records[1].green_kwh, 0.25);
            assert_eq!(records[1].import_kwh, 0.5);
            assert_eq!(records[1].range_km, 12.0);
            assert_eq!(records[1].end_cause, "full");
        }
        FetchResponse::Failure { .. } => panic!("failed"),
    }
}

#[test]
fn an_expired_session_is_removed() {
    let (change, response) = fetch_records(Err(FetchError::SessionExpired));
    assert!(matches!(change, CookieChange::Remove));
    assert_eq!(
        refusal(response),
        (false, "Session expired. Please sign in again.".to_owned(), true)
    );
}

#[test]
fn other_failures_keep_the_session() {
    let (change, response) = fetch_records(Err(FetchError::Rejected {
        code: "E1".to_owned(),
        description: "SESSION_EXPIRED".to_owned(),
    }));
    assert!(matches!(change, CookieChange::Keep));
    assert_eq!(refusal(response), (false, "API error (E1): SESSION_EXPIRED".to_owned(), false));
}

const SESSION_TEXT: &str = r#"{"token_json":"{\"uid\":\"u\"}","username":"ann"}"#;

fn jar_of(cookies: &'static str) -> CookieJar {
    let mut headers = HeaderMap::new();
    headers.insert(header::COOKIE, HeaderValue::from_static(cookies));
    CookieJar::from_headers(&headers)
}

fn sent(jar: CookieJar) -> Vec<String> {
    let response = jar.into_response();
    let sent = response.headers().get_all(header::SET_COOKIE).iter();
    sent.map(|v| v.to_str().unwrap().to_owned()).collect()
}

#[test]
fn the_session_cookie_is_found_by_its_name() {
    assert_eq!(session_text(&CookieJar::new()), None);
    assert_eq!(session_text(&jar_of("other=1; gw_sessio=2")), None);
    assert_eq!(session_text(&jar_of("other=1; gw_session=a%20b")), Some("a b".to_owned()));
}

#[test]
fn a_stored_session_is_read_back_and_sent() {
    for jar in [jar_of("other=1"), jar_of("other=1; gw_session=old")] {
        let jar = apply_change(jar, CookieChange::Store(session()));
        assert_eq!(session_text(&jar).as_deref(), Some(SESSION_TEXT));
        assert_eq!(jar.get("other").map(|c| c.value()), Some("1"));
        let c = jar.get(COOKIE_NAME).unwrap();
        assert_eq!((c.path(), c.http_only()), (Some("/"), Some(true)));
        let headers = sent(jar);
        assert_eq!(headers.len(), 1);
        assert!(headers[0].starts_with("gw_session=%7B%22token_json%22"));
        assert!(headers[0].ends_with("; HttpOnly; Path=/"));
    }
}

#[test]
fn a_removed_session_is_gone_and_the_client_is_told() {
    let jar = apply_change(jar_of("other=1; gw_session=old"), CookieChange::Remove);
    assert_eq!(session_text(&jar), None);
    assert_eq!(jar.get("other").map(|c| c.value()), Some("1"));
    let headers = sent(jar);
    assert_eq!(headers.len(), 1);
    assert!(headers[0].starts_with("gw_session=; Path=/; Max-Age=0"));
}

#[test]
fn a_removal_is_sent_only_where_the_cookie_came() {
    let jar = apply_change(jar_of("other=1"), CookieChange::Remove);
    assert_eq!(jar.get("other").map(|c| c.value()), Some("1"));
    assert!(sent(jar).is_empty());

    let jar = apply_change(jar_of("other=1"), CookieChange::Store(session()));
    let jar = apply_change(jar, CookieChange::Remove);
    assert_eq!(session_text(&jar), None);
    assert!(sent(jar).is_empty());
}

#[test]
fn keeping_the_session_sends_nothing() {
    let jar = apply_change(jar_of("gw_session=old"), CookieChange::Keep);
    assert_eq!(session_text(&jar).as_deref(), Some("old"));
    assert!(sent(jar).is_empty());
}
