use vstd::prelude::*;

verus! {

/// The cookie that carries a session token to the browser.
#[derive(Clone, Debug, PartialEq, Eq)]
pub struct SessionCookie {
    pub name: String,
    pub value: String,
    pub http_only: bool,
    pub domain: String,
    pub path: String,
}

/// The name of the session cookie.
pub open spec fn session_cookie_name() -> Seq<char> {
    "auth_session"@
}

/// The domain the session cookie is sent to.
pub open spec fn session_cookie_domain() -> Seq<char> {
    "localtest.me"@
}

/// The name of the session cookie, as text.
pub fn cookie_name() -> (res: String)
    ensures
        res@ == session_cookie_name(),
{
    "auth_session".to_owned()
}

/// The session cookie for a token: named `auth_session`, holding the token,
/// hidden from scripts, for the domain `localtest.me` and every path.
pub fn session_cookie(token: String) -> (res: SessionCookie)
    ensures
        res.name@ == session_cookie_name(),
        res.value == token,
        res.http_only,
        res.domain@ == session_cookie_domain(),
        res.path@ == "/"@,
{
    SessionCookie {
        name: cookie_name(),
        value: token,
        http_only: true,
        domain: "localtest.me".to_owned(),
        path: "/".to_owned(),
    }
}

} // verus!
