//! The authentication middleware's decisions around the request/response
//! lifecycle: decode the session at entry, commit the pending session
//! mutation at exit, and rewrite an unauthorized response into a redirect
//! towards the login view when that policy is enabled.

use vstd::prelude::*;
use vstd::string::StrSliceExecFns;
use vstd::string::StringExecFns;

use crate::login_state::{pending_of, spec_pending_of, LoginInfo, LoginState, Pending};

verus! {

/// A failure while committing the session to the response: the built
/// Set-Cookie header would not be a well-formed header value.
#[derive(Debug)]
pub enum EncodeError {
    InvalidHeaderValue,
}

/// A character acceptable inside an HTTP header value: a tab, or anything
/// that is neither a control character nor delete.  This matches what the
/// common HTTP header-value types accept byte by byte, since every
/// character beyond ASCII encodes to bytes of 128 and above.
pub open spec fn spec_valid_header_char(c: char) -> bool {
    c == '\t' || (32 <= c as u32 && c as u32 != 127)
}

/// A string acceptable as an HTTP header value.
pub open spec fn spec_valid_header(s: Seq<char>) -> bool {
    forall|i: int| 0 <= i < s.len() ==> spec_valid_header_char(s[i])
}

/// Checks that a string can stand as an HTTP header value.
pub fn valid_header_value(s: &str) -> (r: bool)
    ensures
        r == spec_valid_header(s@),
{
    let n = s.unicode_len();
    let mut i: usize = 0;
    while i < n
        invariant
            n == s@.len(),
            i <= n,
            forall|j: int| 0 <= j < i ==> spec_valid_header_char(s@[j]),
        decreases n - i,
    {
        let c = s.get_char(i);
        if !(c == '\t' || (c as u32) >= 32 && (c as u32) != 127) {
            return false;
        }
        i = i + 1;
    }
    true
}

/// A session decoder/encoder for the middleware: reads the user key out of
/// an incoming request's cookie and writes the pending outcome into an
/// outgoing Set-Cookie header.
pub trait DecodeRequest: Sized {
    /// The decoder's own well-formedness (for a cookie codec: usable key
    /// material).
    spec fn valid(&self) -> bool;

    /// What `decode` returns for a given cookie value and client profile.
    spec fn spec_decode(
        &self,
        cookie: Option<Seq<char>>,
        addr: Option<Seq<char>>,
        agent: Option<Seq<char>>,
    ) -> Option<Seq<char>>;

    /// Reads the user key from the named cookie's value, under the client
    /// profile of the request; `None` on any failure.
    fn decode(&self, cookie: Option<&str>, addr: Option<&str>, agent: Option<&str>) -> (r: Option<
        String,
    >)
        requires
            self.valid(),
        ensures
            r.deep_view() == self.spec_decode(cookie.deep_view(), addr.deep_view(), agent.deep_view()),
    ;

    /// What a Set-Cookie header committed by `update` means for this
    /// decoder: it ties the header handed to the response back to the
    /// pending outcome it commits (for a cookie codec: the header carries a
    /// sealed value that decodes, under the client profile it was written
    /// for, to exactly the key the outcome stores).
    spec fn spec_committed(
        &self,
        pending: Pending,
        addr: Option<Seq<char>>,
        agent: Option<Seq<char>>,
        header: Seq<char>,
    ) -> bool;

    /// Commits a pending outcome: `None` when nothing is to be written (a
    /// no-op mutates nothing), otherwise the full Set-Cookie header value
    /// to append to the response, always a well-formed header value that
    /// carries the committed outcome.
    fn update(&self, pending: &Pending, addr: Option<&str>, agent: Option<&str>) -> (r: Result<
        Option<String>,
        EncodeError,
    >)
        requires
            self.valid(),
        ensures
            *pending is Noop ==> r == Ok::<Option<String>, EncodeError>(None),
            r matches Ok(h) ==> (h is Some <==> !(*pending is Noop)),
            r matches Ok(h) ==> (h matches Some(hdr) ==> spec_valid_header(hdr@)
                && self.spec_committed(*pending, addr.deep_view(), agent.deep_view(), hdr@)),
    ;
}

/// Escaping of one query character: `&` and `=` are replaced by their
/// escape triples, anything else stands as it is.
pub open spec fn spec_escape_char(c: char) -> Seq<char> {
    if c == '&' {
        seq!['%', '2', '6']
    } else if c == '=' {
        seq!['%', '3', 'd']
    } else {
        seq![c]
    }
}

/// Escaping of a query string, character by character.
pub open spec fn spec_escape_query(q: Seq<char>) -> Seq<char>
    decreases q.len(),
{
    if q.len() == 0 {
        Seq::empty()
    } else {
        spec_escape_query(q.drop_last()) + spec_escape_char(q.last())
    }
}

/// Escapes a query string for use inside the redirect target.
pub fn escape_query(q: &str) -> (r: String)
    ensures
        r@ == spec_escape_query(q@),
{
    let n = q.unicode_len();
    let mut r = String::new();
    let mut i: usize = 0;
    while i < n
        invariant
            n == q@.len(),
            i <= n,
            r@ == spec_escape_query(q@.take(i as int)),
        decreases n - i,
    {
        let c = q.get_char(i);
        if c == '&' {
            r.push('%');
            r.push('2');
            r.push('6');
        } else if c == '=' {
            r.push('%');
            r.push('3');
            r.push('d');
        } else {
            r.push(c);
        }
        proof {
            let taken = q@.take(i + 1int);
            assert(taken.drop_last() =~= q@.take(i as int));
            assert(taken.last() == q@[i as int]);
            assert(r@ =~= spec_escape_query(taken));
        }
        i = i + 1;
    }
    proof {
        assert(q@.take(n as int) =~= q@);
    }
    r
}

/// The Location header of a redirect towards the login view.  A request
/// without a query string redirects to the login view alone; one with a
/// query string carries the original path and query, escaped, in a `next`
/// parameter.
pub open spec fn spec_location(login_view: Seq<char>, path: Seq<char>, query: Seq<char>) -> Seq<
    char,
> {
    if query.len() == 0 {
        login_view
    } else {
        login_view + "?next="@ + path + "%3F"@ + spec_escape_query(query)
    }
}

/// Builds the Location header of a redirect towards the login view.
pub fn redirect_location(login_view: &str, path: &str, query: &str) -> (r: String)
    ensures
        r@ == spec_location(login_view@, path@, query@),
{
    if query.is_empty() {
        login_view.to_owned()
    } else {
        let mut r = login_view.to_owned();
        r.append("?next=");
        r.append(path);
        r.append("%3F");
        let escaped = escape_query(query);
        r.append(escaped.as_str());
        proof {
            assert(r@ =~= spec_location(login_view@, path@, query@));
        }
        r
    }
}

/// The authentication middleware's configuration: the session decoder, the
/// path of the login view, and whether an unauthorized response is
/// rewritten into a redirect towards it.
pub struct LoginManager<D: DecodeRequest> {
    pub decoder: D,
    pub login_view: String,
    pub redirect: bool,
}

/// What the middleware asks the surrounding framework to apply to the
/// outgoing response: the final status, a Set-Cookie header to append (if
/// any), a Location header to set (if any), and whether committing the
/// session failed (the response itself still stands).
pub struct ResponseDirective {
    pub status: u16,
    pub set_cookie: Option<String>,
    pub location: Option<String>,
    pub encode_failed: bool,
}

impl<D: DecodeRequest> LoginManager<D> {
    /// A manager around a decoder, with the default policy: redirect
    /// enabled, login view `/login`.
    pub fn new(decoder: D) -> (r: Self)
        ensures
            r.decoder == decoder,
            r.login_view@ == "/login"@,
            r.redirect == true,
    {
        Self { decoder, login_view: String::from_str("/login"), redirect: true }
    }

    /// Sets whether an unauthorized response is rewritten into a redirect.
    /// Default true.
    pub fn redirect(self, redirect: bool) -> (r: Self)
        ensures
            r.decoder == self.decoder,
            r.login_view == self.login_view,
            r.redirect == redirect,
    {
        Self { redirect, ..self }
    }

    /// Sets the path of the login view. Default `/login`.
    pub fn login_view(self, login_view: String) -> (r: Self)
        requires
            spec_valid_header(login_view@),
        ensures
            r.decoder == self.decoder,
            r.login_view == login_view,
            r.redirect == self.redirect,
    {
        Self { login_view, ..self }
    }

    /// Entry of the middleware: decode the incoming cookie under the
    /// request's client profile and store the key, waiting, into the fresh
    /// login record.
    pub fn on_request(&self, cookie: Option<&str>, addr: Option<&str>, agent: Option<&str>) -> (r:
        LoginInfo)
        requires
            self.decoder.valid(),
        ensures
            r.key_str.deep_view() == self.decoder.spec_decode(
                cookie.deep_view(),
                addr.deep_view(),
                agent.deep_view(),
            ),
            r.state is Wait,
    {
        LoginInfo::new(self.decoder.decode(cookie, addr, agent), LoginState::Wait)
    }

    /// Exit of the middleware: commit the outcome the final login state
    /// calls for, and apply the redirect policy — when it is enabled and
    /// the response status is exactly 401, the status becomes 302 and a
    /// Location header towards the login view is set.
    pub fn on_response(
        &self,
        info: &LoginInfo,
        status: u16,
        path: &str,
        query: &str,
        addr: Option<&str>,
        agent: Option<&str>,
    ) -> (r: ResponseDirective)
        requires
            self.decoder.valid(),
        ensures
            spec_pending_of(info.state) is Noop ==> r.set_cookie is None && !r.encode_failed,
            r.set_cookie is Some ==> !(spec_pending_of(info.state) is Noop),
            !(spec_pending_of(info.state) is Noop) ==> r.set_cookie is Some || r.encode_failed,
            r.set_cookie matches Some(h) ==> spec_valid_header(h@) && self.decoder.spec_committed(
                spec_pending_of(info.state),
                addr.deep_view(),
                agent.deep_view(),
                h@,
            ),
            (self.redirect && status == 401) ==> r.status == 302 && (r.location matches Some(l)
                && l@ == spec_location(self.login_view@, path@, query@)),
            !(self.redirect && status == 401) ==> r.status == status && r.location is None,
    {
        let pending = pending_of(&info.state);
        let (set_cookie, encode_failed) = match self.decoder.update(&pending, addr, agent) {
            Ok(h) => (h, false),
            Err(_) => (None, true),
        };
        if self.redirect && status == 401 {
            let location = redirect_location(self.login_view.as_str(), path, query);
            ResponseDirective { status: 302, set_cookie, location: Some(location), encode_failed }
        } else {
            ResponseDirective { status, set_cookie, location: None, encode_failed }
        }
    }
}

} // verus!
