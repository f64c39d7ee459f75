//! The cookies of a client: those that came with a request, and those that the
//! answer sends.
use axum_extra::extract::cookie::{Cookie, CookieJar};
use vstd::prelude::*;

verus! {

/// A cookie as it is sent to the client.
#[derive(Debug)]
pub struct CookieSpec {
    pub name: &'static str,
    pub value: String,
    pub path: &'static str,
    pub http_only: Option<bool>,
}

/// A cookie, but for its name: its value, its path and its HttpOnly mark.
pub struct CookieModel {
    pub value: Seq<char>,
    pub path: Option<Seq<char>>,
    pub http_only: Option<bool>,
}

impl View for CookieSpec {
    type V = CookieModel;

    open spec fn view(&self) -> CookieModel {
        CookieModel { value: self.value@, path: Some(self.path@), http_only: self.http_only }
    }
}

/// A cookie that an answer sends: to be kept, or to remove the one that the client has.
pub struct Outgoing {
    pub cookie: CookieModel,
    pub removal: bool,
}

/// The axum-extra crate's jar of cookies.
#[verifier::external_type_specification]
#[verifier::external_body]
pub struct ExCookieJar(axum_extra::extract::cookie::CookieJar);

/// The cookies that came with the request, by name.
pub uninterp spec fn received(jar: CookieJar) -> Map<Seq<char>, CookieModel>;

/// The cookies that the answer sends, by name.
pub uninterp spec fn outgoing(jar: CookieJar) -> Map<Seq<char>, Outgoing>;

/// The cookies that a jar holds: those that came, as the answer changes them.
pub open spec fn contents(jar: CookieJar) -> Map<Seq<char>, CookieModel> {
    Map::new(
        |name: Seq<char>|
            if outgoing(jar).contains_key(name) {
                !outgoing(jar)[name].removal
            } else {
                received(jar).contains_key(name)
            },
        |name: Seq<char>|
            if outgoing(jar).contains_key(name) {
                outgoing(jar)[name].cookie
            } else {
                received(jar)[name]
            },
    )
}

/// `CookieJar::get` of the axum-extra crate, and the value of the cookie that it finds:
/// one that the answer sends goes before one that came, and one that the answer
/// removes is not there.
#[verifier::external_body]
pub(crate) fn cookie_value(jar: &CookieJar, name: &str) -> (value: Option<String>)
    ensures
        match value {
            Some(v) => contents(*jar).contains_key(name@) && contents(*jar)[name@].value == v@,
            None => !contents(*jar).contains_key(name@),
        },
{
    jar.get(name).map(|c| c.value().to_owned())
}

/// `CookieJar::add` of the axum-extra crate: the answer sends the cookie, in place
/// of what it sent under that name before.
#[verifier::external_body]
pub(crate) fn add_cookie(jar: CookieJar, cookie: CookieSpec) -> (r: CookieJar)
    ensures
        received(r) == received(jar),
        outgoing(r) == outgoing(jar).insert(
            cookie.name@,
            (Outgoing { cookie: cookie@, removal: false }),
        ),
{
    let mut c = Cookie::new(cookie.name, cookie.value);
    c.set_http_only(cookie.http_only);
    c.set_path(cookie.path);
    jar.add(c)
}

/// `CookieJar::remove` of the axum-extra crate: where a cookie of that name came with
/// the request the answer sends the given one, emptied, to remove it; where none came
/// the answer sends nothing under that name. The expiry date that a removal carries
/// comes from the clock, and nothing is said of it.
#[verifier::external_body]
pub(crate) fn remove_cookie(jar: CookieJar, cookie: CookieSpec) -> (r: CookieJar)
    ensures
        received(r) == received(jar),
        outgoing(r) == (if received(jar).contains_key(cookie.name@) {
            outgoing(jar).insert(
                cookie.name@,
                (Outgoing {
                    cookie: (CookieModel { value: Seq::empty(), ..cookie@ }),
                    removal: true,
                }),
            )
        } else {
            outgoing(jar).remove(cookie.name@)
        }),
{
    let mut c = Cookie::new(cookie.name, cookie.value);
    c.set_http_only(cookie.http_only);
    c.set_path(cookie.path);
    jar.remove(c)
}

} // verus!
