//! The rules of the web front end: who is signed in, what each route answers, and
//! what becomes of the session cookie. The session lives in the cookie alone.
use axum_extra::extract::cookie::CookieJar;
use vstd::prelude::*;

use crate::cookies;
use crate::cookies::{CookieModel, CookieSpec, Outgoing};
use crate::goodwe::fetch::{FetchError, FetchResult};
use crate::goodwe::login::{Login, LoginError};
use crate::goodwe::record::Record;
use crate::goodwe::token::TokenData;
use crate::json;
use crate::json::{Json, JsonModel};

verus! {

/// The name of the session cookie.
pub const COOKIE_NAME: &'static str = "gw_session";

/// The session that a client's cookie holds.
#[derive(Debug)]
pub struct SessionCookie {
    pub token_json: String,
    pub username: String,
}

/// The document that a session cookie holds.
pub open spec fn session_document(sc: SessionCookie) -> JsonModel {
    JsonModel::Object(
        map![
            "token_json"@ => JsonModel::Text(sc.token_json@),
            "username"@ => JsonModel::Text(sc.username@),
        ],
    )
}

/// The cookie that holds a session, out of reach of scripts.
pub open spec fn session_cookie(sc: SessionCookie) -> CookieModel {
    CookieModel {
        value: json::json_text_of(session_document(sc)),
        path: Some("/"@),
        http_only: Some(true),
    }
}

/// Makes the cookie that holds a session.
pub fn make_cookie(sc: &SessionCookie) -> (c: CookieSpec)
    ensures
        c.name@ == COOKIE_NAME@,
        c@ == session_cookie(*sc),
{
    let mut fields: Vec<(String, Json)> = Vec::new();
    json::set_text(&mut fields, "token_json", sc.token_json.as_str());
    json::set_text(&mut fields, "username", sc.username.as_str());
    let document = Json::Object(fields);
    assert(document@ == session_document(*sc));
    CookieSpec {
        name: COOKIE_NAME,
        value: json::json_text(&document),
        path: "/",
        http_only: Some(true),
    }
}

/// The cookie that takes a session cookie's place when it goes: the same path, and
/// nothing in it.
pub open spec fn empty_cookie() -> CookieModel {
    CookieModel { value: Seq::empty(), path: Some("/"@), http_only: None }
}

/// Makes the cookie that takes a session cookie's place when it goes.
pub fn removal_cookie() -> (c: CookieSpec)
    ensures
        c.name@ == COOKIE_NAME@,
        c@ == empty_cookie(),
{
    CookieSpec { name: COOKIE_NAME, value: String::new(), path: "/", http_only: None }
}

/// What becomes of the client's session cookie.
#[derive(Debug)]
pub enum CookieChange {
    Keep,
    Store(SessionCookie),
    Remove,
}

impl CookieChange {
    /// The session that a client has after the change.
    pub open spec fn apply(self, session: Option<SessionCookie>) -> Option<SessionCookie> {
        match self {
            CookieChange::Keep => session,
            CookieChange::Store(sc) => Some(sc),
            CookieChange::Remove => None,
        }
    }

    /// The cookies that a client has after the change.
    pub open spec fn change_cookies(self, cookies: Map<Seq<char>, CookieModel>) -> Map<
        Seq<char>,
        CookieModel,
    > {
        match self {
            CookieChange::Keep => cookies,
            CookieChange::Store(sc) => cookies.insert(COOKIE_NAME@, session_cookie(sc)),
            CookieChange::Remove => cookies.remove(COOKIE_NAME@),
        }
    }

    /// The cookies that an answer sends with the change in it, where it sent `sent`
    /// without, and where the client's session cookie came with the request or not.
    pub open spec fn change_sent(self, sent: Map<Seq<char>, Outgoing>, came: bool) -> Map<
        Seq<char>,
        Outgoing,
    > {
        match self {
            CookieChange::Keep => sent,
            CookieChange::Store(sc) => sent.insert(
                COOKIE_NAME@,
                Outgoing { cookie: session_cookie(sc), removal: false },
            ),
            CookieChange::Remove => if came {
                sent.insert(COOKIE_NAME@, Outgoing { cookie: empty_cookie(), removal: true })
            } else {
                sent.remove(COOKIE_NAME@)
            },
        }
    }
}

/// The text that a client's session cookie holds, none where there is no such cookie.
pub open spec fn session_text_in(cookies: Map<Seq<char>, CookieModel>) -> Option<Seq<char>> {
    if cookies.contains_key(COOKIE_NAME@) {
        Some(cookies[COOKIE_NAME@].value)
    } else {
        None
    }
}

/// Reads the text that a client's session cookie holds.
pub fn session_text(jar: &CookieJar) -> (text: Option<String>)
    ensures
        match text {
            Some(t) => session_text_in(cookies::contents(*jar)) == Some(t@),
            None => session_text_in(cookies::contents(*jar)) is None,
        },
{
    cookies::cookie_value(jar, COOKIE_NAME)
}

/// Puts a change of the session cookie into a client's jar.
pub fn apply_change(jar: CookieJar, change: CookieChange) -> (r: CookieJar)
    ensures
        cookies::contents(r) == change.change_cookies(cookies::contents(jar)),
        cookies::received(r) == cookies::received(jar),
        cookies::outgoing(r) == change.change_sent(
            cookies::outgoing(jar),
            cookies::received(jar).contains_key(COOKIE_NAME@),
        ),
{
    let r = match change {
        CookieChange::Keep => jar,
        CookieChange::Store(ref sc) => cookies::add_cookie(jar, make_cookie(sc)),
        CookieChange::Remove => cookies::remove_cookie(jar, removal_cookie()),
    };
    assert(cookies::contents(r) =~= change.change_cookies(cookies::contents(jar)));
    r
}

/// The answer to a question for the status.
#[derive(Debug)]
pub enum StatusResponse {
    LoggedIn { logged_in: bool, username: String },
    LoggedOut { logged_in: bool },
}

/// The status of a client with the given session.
pub open spec fn status_of(session: Option<SessionCookie>) -> StatusResponse {
    match session {
        Some(sc) => StatusResponse::LoggedIn { logged_in: true, username: sc.username },
        None => StatusResponse::LoggedOut { logged_in: false },
    }
}

/// Whether a client is signed in, and as whom.
pub fn status(session: Option<SessionCookie>) -> (r: StatusResponse)
    ensures
        r == status_of(session),
{
    match session {
        Some(sc) => StatusResponse::LoggedIn { logged_in: true, username: sc.username },
        None => StatusResponse::LoggedOut { logged_in: false },
    }
}

/// What a client sends to sign in.
#[derive(Debug)]
pub struct LoginRequest {
    pub username: String,
    pub password: String,
}

/// The answer to a login.
#[derive(Debug)]
pub enum LoginResponse {
    Success { ok: bool, username: String },
    Failure { ok: bool, error: String },
}

/// What a login does to the session: one that went through stores it under the
/// user's name, one that failed leaves it.
pub open spec fn login_change(
    username: String,
    outcome: Result<Login, LoginError>,
) -> CookieChange {
    match outcome {
        Ok(login) => CookieChange::Store(
            SessionCookie { token_json: login.token_json, username },
        ),
        Err(_) => CookieChange::Keep,
    }
}

/// Answers a login that came out as `outcome`.
pub fn login(req: LoginRequest, outcome: Result<Login, LoginError>) -> (r: (
    CookieChange,
    LoginResponse,
))
    ensures
        r.0 == login_change(req.username, outcome),
        match outcome {
            Ok(_) => r.1 == (LoginResponse::Success { ok: true, username: req.username }),
            Err(e) => r.1 matches LoginResponse::Failure { ok, error } && !ok && error@ == e@.message(),
        },
        r.1 is Success <==> outcome is Ok,
        r.0 is Store <==> outcome is Ok,
        r.1 matches LoginResponse::Success { username, .. } ==> username == req.username,
{
    match outcome {
        Ok(login) => {
            let sc = SessionCookie {
                token_json: login.token_json,
                username: req.username.clone(),
            };
            (CookieChange::Store(sc), LoginResponse::Success { ok: true, username: req.username })
        },
        Err(e) => (CookieChange::Keep, LoginResponse::Failure { ok: false, error: e.message() }),
    }
}

/// The answer to a logout.
#[derive(Debug)]
pub struct LogoutResponse {
    pub ok: bool,
}

/// Signs a client out.
pub fn logout() -> (r: (CookieChange, LogoutResponse))
    ensures
        r.0 == CookieChange::Remove,
        r.1.ok,
{
    (CookieChange::Remove, LogoutResponse { ok: true })
}

/// What a client sends to fetch the records of a month.
#[derive(Debug)]
pub struct FetchRequest {
    pub year: i32,
    pub month: u32,
    pub device_sn: String,
}

/// A charging session as it is sent to the client.
#[derive(Debug)]
pub struct RecordJson<Q> {
    pub session: usize,
    pub start: String,
    pub end: String,
    pub duration_min: u64,
    pub total_kwh: Q,
    pub green_kwh: Q,
    pub import_kwh: Q,
    pub range_km: Q,
    pub end_cause: String,
}

/// The answer to a fetch.
#[derive(Debug)]
pub enum FetchResponse<Q> {
    Success {
        ok: bool,
        records: Vec<RecordJson<Q>>,
        total_green_kwh: Q,
        total_import_kwh: Q,
    },
    Failure { ok: bool, error: String, session_expired: bool },
}

impl<Q> FetchResponse<Q> {
    /// Whether the answer is this error, with this word on the session.
    pub open spec fn refuses(self, message: Seq<char>, expired: bool) -> bool {
        self matches FetchResponse::Failure { ok, error, session_expired } && !ok && error@ == message
            && session_expired == expired
    }
}

/// Lets a client with a session fetch, and refuses one without.
pub fn open_session<Q>(session: Option<SessionCookie>) -> (r: Result<
    SessionCookie,
    (CookieChange, FetchResponse<Q>),
>)
    ensures
        match session {
            Some(sc) => r == Ok::<SessionCookie, (CookieChange, FetchResponse<Q>)>(sc),
            None => {
                &&& r is Err
                &&& r->Err_0.0 == CookieChange::Keep
                &&& r->Err_0.1.refuses("Not signed in."@, true)
            },
        },
        r is Ok <==> session is Some,
        r matches Ok(sc) ==> session == Some(sc),
{
    match session {
        Some(sc) => Ok(sc),
        None => Err(
            (
                CookieChange::Keep,
                FetchResponse::Failure {
                    ok: false,
                    error: "Not signed in.".to_owned(),
                    session_expired: true,
                },
            ),
        ),
    }
}

/// Lets a client fetch whose session holds a token, and refuses one whose token
/// could not be read, and why.
pub fn open_token<Q>(token: Result<TokenData, String>) -> (r: Result<
    TokenData,
    (CookieChange, FetchResponse<Q>),
>)
    ensures
        match token {
            Ok(t) => r == Ok::<TokenData, (CookieChange, FetchResponse<Q>)>(t),
            Err(cause) => {
                &&& r is Err
                &&& r->Err_0.0 == CookieChange::Keep
                &&& r->Err_0.1.refuses("Corrupt session cookie: "@ + cause@, true)
            },
        },
        r is Ok <==> token is Ok,
        r matches Ok(t) ==> token == Ok::<TokenData, String>(t),
        token matches Err(cause) ==> (r->Err_0.1 matches FetchResponse::Failure { error, .. }
            && error@.skip(24) == cause@),
{
    proof {
        reveal_strlit("Corrupt session cookie: ");
        if token is Err {
            assert(("Corrupt session cookie: "@ + token->Err_0@).skip(24) =~= token->Err_0@);
        }
    }
    match token {
        Ok(t) => Ok(t),
        Err(cause) => Err(
            (
                CookieChange::Keep,
                FetchResponse::Failure {
                    ok: false,
                    error: "Corrupt session cookie: ".to_owned().concat(cause.as_str()),
                    session_expired: true,
                },
            ),
        ),
    }
}

/// A record as it is sent to the client.
pub open spec fn record_json<Q>(r: Record<Q>) -> RecordJson<Q> {
    RecordJson {
        session: r.session,
        start: r.start,
        end: r.end,
        duration_min: r.duration_min,
        total_kwh: r.total_kwh,
        green_kwh: r.green_kwh,
        import_kwh: r.import_kwh,
        range_km: r.range_km,
        end_cause: r.end_cause,
    }
}

/// What a fetch does to the session: one that found it expired removes it, any
/// other leaves it.
pub open spec fn fetch_change<Q>(outcome: Result<FetchResult<Q>, FetchError>) -> CookieChange {
    match outcome {
        Ok(_) => CookieChange::Keep,
        Err(e) => if e@ is SessionExpired { CookieChange::Remove } else { CookieChange::Keep },
    }
}

/// Whether `r` answers a fetch that came out as `outcome`.
pub open spec fn answers_fetch<Q>(
    outcome: Result<FetchResult<Q>, FetchError>,
    r: FetchResponse<Q>,
) -> bool {
    match outcome {
        Ok(result) => {
            &&& r matches FetchResponse::Success { ok, records, total_green_kwh, total_import_kwh }
            &&& ok
            &&& records@ == result.records@.map_values(|x: Record<Q>| record_json(x))
            &&& total_green_kwh == result.total_green_kwh
            &&& total_import_kwh == result.total_import_kwh
        },
        Err(e) => if e@ is SessionExpired {
            r.refuses("Session expired. Please sign in again."@, true)
        } else {
            r.refuses(e@.message(), false)
        },
    }
}

/// Answers a fetch that came out as `outcome`.
pub fn fetch_records<Q>(outcome: Result<FetchResult<Q>, FetchError>) -> (r: (
    CookieChange,
    FetchResponse<Q>,
))
    ensures
        r.0 == fetch_change(outcome),
        answers_fetch(outcome, r.1),
{
    match outcome {
        Ok(result) => {
            let records = to_json_records(result.records);
            (
                CookieChange::Keep,
                FetchResponse::Success {
                    ok: true,
                    records,
                    total_green_kwh: result.total_green_kwh,
                    total_import_kwh: result.total_import_kwh,
                },
            )
        },
        Err(FetchError::SessionExpired) => (
            CookieChange::Remove,
            FetchResponse::Failure {
                ok: false,
                error: "Session expired. Please sign in again.".to_owned(),
                session_expired: true,
            },
        ),
        Err(e) => (
            CookieChange::Keep,
            FetchResponse::Failure { ok: false, error: e.message(), session_expired: false },
        ),
    }
}

/// The records as they are sent to the client.
fn to_json_records<Q>(records: Vec<Record<Q>>) -> (out: Vec<RecordJson<Q>>)
    ensures
        out@ == records@.map_values(|x: Record<Q>| record_json(x)),
{
    let mut out: Vec<RecordJson<Q>> = Vec::new();
    for r in iter: records
        invariant
            iter.seq() == records@,
            out@.len() == iter.index(),
            forall|i: int| 0 <= i < out@.len() ==> #[trigger] out@[i] == record_json(records@[i]),
    {
        out.push(
            RecordJson {
                session: r.session,
                start: r.start,
                end: r.end,
                duration_min: r.duration_min,
                total_kwh: r.total_kwh,
                green_kwh: r.green_kwh,
                import_kwh: r.import_kwh,
                range_km: r.range_km,
                end_cause: r.end_cause,
            },
        );
    }
    out
}

/// No change of the session cookie touches a cookie of another name, neither what the
/// client has nor what the answer sends.
pub proof fn changes_spare_other_cookies(
    change: CookieChange,
    cookies: Map<Seq<char>, CookieModel>,
    sent: Map<Seq<char>, Outgoing>,
    came: bool,
    name: Seq<char>,
)
    requires
        name != COOKIE_NAME@,
    ensures
        change.change_cookies(cookies).contains_key(name) == cookies.contains_key(name),
        change.change_cookies(cookies)[name] == cookies[name],
        change.change_sent(sent, came).contains_key(name) == sent.contains_key(name),
        change.change_sent(sent, came)[name] == sent[name],
{
}

/// After a login that went through the session cookie holds the document of the session
/// that it granted, and after a removal, as a logout does, there is no session cookie.
pub proof fn session_cookie_follows_session(
    cookies: Map<Seq<char>, CookieModel>,
    username: String,
    login: Login,
)
    ensures
        session_text_in(login_change(username, Ok(login)).change_cookies(cookies)) == Some(
            json::json_text_of(
                session_document(SessionCookie { token_json: login.token_json, username }),
            ),
        ),
        session_text_in(CookieChange::Remove.change_cookies(cookies)) is None,
{
}

/// After a login that went through a client has the session that it granted, and
/// the status tells the name that it was made under.
pub proof fn login_signs_in(session: Option<SessionCookie>, username: String, login: Login)
    ensures
        login_change(username, Ok(login)).apply(session) == Some(
            SessionCookie { token_json: login.token_json, username },
        ),
        status_of(login_change(username, Ok(login)).apply(session)) == (StatusResponse::LoggedIn {
            logged_in: true,
            username,
        }),
{
}

/// A login that failed leaves a client the session that it had.
pub proof fn failed_login_changes_nothing(
    session: Option<SessionCookie>,
    username: String,
    e: LoginError,
)
    ensures
        login_change(username, Err(e)).apply(session) == session,
{
}

/// A client whose session cookie was removed, as a logout does, is signed out.
pub proof fn removal_signs_out(session: Option<SessionCookie>)
    ensures
        CookieChange::Remove.apply(session) is None,
        status_of(CookieChange::Remove.apply(session)) == (StatusResponse::LoggedOut {
            logged_in: false,
        }),
{
}

/// A fetch signs a client out exactly where the session was found expired, and the
/// answer says that the session expired exactly then.
pub proof fn fetch_tells_of_lost_session<Q>(
    session: Option<SessionCookie>,
    outcome: Result<FetchResult<Q>, FetchError>,
    r: FetchResponse<Q>,
)
    requires
        answers_fetch(outcome, r),
    ensures
        fetch_change(outcome).apply(session) == (if outcome matches Err(e) && e@ is SessionExpired {
            None
        } else {
            session
        }),
        (r matches FetchResponse::Failure { session_expired, .. } && session_expired) <==> (outcome
            matches Err(e) && e@ is SessionExpired),
{
}

/// The document in a session cookie holds the token text and the user's name, each
/// under its key, and nothing else; the cookie is for every path and out of reach of
/// scripts, and one that takes its place is for the same paths and empty.
pub proof fn session_cookie_holds_the_session(sc: SessionCookie, key: Seq<char>)
    ensures
        session_document(sc).field("token_json"@) == JsonModel::Text(sc.token_json@),
        session_document(sc).field("username"@) == JsonModel::Text(sc.username@),
        key != "token_json"@ && key != "username"@ ==> session_document(sc).field(key)
            == JsonModel::Null,
        session_cookie(sc).value == json::json_text_of(session_document(sc)),
        session_cookie(sc).path == Some("/"@),
        session_cookie(sc).http_only == Some(true),
        empty_cookie().path == session_cookie(sc).path,
        empty_cookie().value.len() == 0,
        empty_cookie().http_only is None,
{
    reveal_strlit("token_json");
    reveal_strlit("username");
    assert("token_json"@.len() == 10 && "username"@.len() == 8);
}

/// A stored session is sent to the client, to be kept. A removal is sent, to remove the
/// cookie, exactly where the client's cookie came with the request; where it did not,
/// nothing is sent under that name.
pub proof fn changes_reach_the_client(
    sc: SessionCookie,
    sent: Map<Seq<char>, Outgoing>,
    came: bool,
)
    ensures
        ({
            let stored = CookieChange::Store(sc).change_sent(sent, came);
            &&& stored.contains_key("gw_session"@)
            &&& !stored["gw_session"@].removal
            &&& stored["gw_session"@].cookie == session_cookie(sc)
        }),
        ({
            let removed = CookieChange::Remove.change_sent(sent, came);
            &&& removed.contains_key("gw_session"@) <==> came
            &&& came ==> removed["gw_session"@].removal && removed["gw_session"@].cookie
                == empty_cookie()
        }),
        CookieChange::Keep.change_sent(sent, came) == sent,
{
}

/// A change that keeps the session keeps every cookie that a client has.
pub proof fn keeping_changes_no_cookie(
    cookies: Map<Seq<char>, CookieModel>,
    session: Option<SessionCookie>,
)
    ensures
        CookieChange::Keep.change_cookies(cookies) == cookies,
        CookieChange::Keep.apply(session) == session,
{
}

/// The status names the user of the session, and a client without one is signed out.
pub proof fn status_names_the_user(session: Option<SessionCookie>)
    ensures
        session matches Some(sc) ==> (status_of(session) matches StatusResponse::LoggedIn {
            logged_in,
            username,
        } && logged_in && username == sc.username),
        session is None ==> (status_of(session) matches StatusResponse::LoggedOut { logged_in }
            && !logged_in),
{
}

/// A record is sent with everything that it holds, each thing under its own name.
pub proof fn records_are_sent_as_they_are<Q>(r: Record<Q>)
    ensures
        record_json(r).session == r.session,
        record_json(r).start == r.start,
        record_json(r).end == r.end,
        record_json(r).duration_min == r.duration_min,
        record_json(r).total_kwh == r.total_kwh,
        record_json(r).green_kwh == r.green_kwh,
        record_json(r).import_kwh == r.import_kwh,
        record_json(r).range_km == r.range_km,
        record_json(r).end_cause == r.end_cause,
{
}

/// A fetch that went through is answered with all of its records, in their order, and
/// with both totals, and it leaves the session alone.
pub proof fn fetched_records_are_all_sent<Q>(result: FetchResult<Q>, r: FetchResponse<Q>)
    requires
        answers_fetch(Ok(result), r),
    ensures
        r matches FetchResponse::Success { ok, records, total_green_kwh, total_import_kwh } && {
            &&& ok
            &&& records@.len() == result.records@.len()
            &&& forall|i: int|
                0 <= i < records@.len() ==> {
                    &&& (#[trigger] records@[i]).session == result.records@[i].session
                    &&& records@[i].start == result.records@[i].start
                    &&& records@[i].end == result.records@[i].end
                    &&& records@[i].duration_min == result.records@[i].duration_min
                    &&& records@[i].total_kwh == result.records@[i].total_kwh
                    &&& records@[i].green_kwh == result.records@[i].green_kwh
                    &&& records@[i].import_kwh == result.records@[i].import_kwh
                    &&& records@[i].range_km == result.records@[i].range_km
                    &&& records@[i].end_cause == result.records@[i].end_cause
                }
            &&& total_green_kwh == result.total_green_kwh
            &&& total_import_kwh == result.total_import_kwh
        },
        fetch_change(Ok::<FetchResult<Q>, FetchError>(result)) == CookieChange::Keep,
{
}

/// A fetch that failed is answered with its message, all of it, but for an expired
/// session, of which the client is told to sign in again.
pub proof fn failed_fetch_tells_why<Q>(e: FetchError, r: FetchResponse<Q>)
    requires
        answers_fetch(Err(e), r),
    ensures
        r matches FetchResponse::Failure { ok, error, session_expired } && {
            &&& !ok
            &&& session_expired <==> e@ is SessionExpired
            &&& !(e@ is SessionExpired) ==> error@ == e@.message()
            &&& e@ is SessionExpired ==> error@ == "Session expired. Please sign in again."@
        },
        fetch_change(Err::<FetchResult<Q>, FetchError>(e)) == (if e@ is SessionExpired {
            CookieChange::Remove
        } else {
            CookieChange::Keep
        }),
{
}

/// A client's session cookie is read as the text that it holds, whatever that is, and is
/// found under its own name only.
pub proof fn session_text_is_the_cookies_value(
    cookies: Map<Seq<char>, CookieModel>,
    c: CookieModel,
    name: Seq<char>,
)
    ensures
        session_text_in(cookies.insert("gw_session"@, c)) == Some(c.value),
        session_text_in(cookies.remove("gw_session"@)) is None,
        name != "gw_session"@ ==> session_text_in(cookies.insert(name, c)) == session_text_in(
            cookies,
        ),
{
}

/// A refusal is an answer that says no, with this message and this word on the session.
pub proof fn refusals_say_why<Q>(message: String, expired: bool, other: Seq<char>)
    ensures
        (FetchResponse::<Q>::Failure {
            ok: false,
            error: message,
            session_expired: expired,
        }).refuses(other, expired) <==> other == message@,
        !(FetchResponse::<Q>::Failure {
            ok: false,
            error: message,
            session_expired: expired,
        }).refuses(message@, !expired),
{
}

} // verus!
