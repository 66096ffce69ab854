//! The session cookie codec: an authenticated, encrypted cookie holding a
//! fingerprint-bound session record.  Decoding yields the stored user key
//! only when the cookie decrypts under the configured key and the embedded
//! fingerprint matches the one recomputed from the request at hand; every
//! failure is silent and leaves the request anonymous.

use vstd::prelude::*;
use vstd::string::StrSliceExecFns;
use vstd::string::StringExecFns;

use crate::fingerprint::{create_identifier, spec_fingerprint_of};
use crate::login_state::{spec_stored_key_of, Pending};
use crate::manager::{spec_valid_header, valid_header_value, DecodeRequest, EncodeError};
use crate::session::{
    encode_record, lemma_fingerprint_binding, lemma_payload_round_trip, parse_record,
    spec_open_payload, SessionRecord,
};

verus! {

/// What authenticated decryption of a private-jar cookie value yields: a
/// deterministic function of the key material the jar key is derived from,
/// the cookie name (bound into the ciphertext as associated data), and the
/// ciphertext; `None` when authentication or decryption fails.
pub uninterp spec fn unseal_of(material: Seq<u8>, name: Seq<char>, cipher: Seq<char>) -> Option<
    Seq<char>,
>;

/// Relies on cookie::Key::derive_from (documented to derive its keys
/// deterministically from the master material, panicking under 32 bytes)
/// and cookie::PrivateJar::get (authenticated decryption with the cookie
/// name as associated data, `None` on any failure).
#[verifier::external_body]
fn unseal_value(material: &Vec<u8>, name: &str, cipher: &str) -> (r: Option<String>)
    requires
        material@.len() >= 32,
    ensures
        unseal_of(material@, name@, cipher@) == (match r {
            Some(v) => Some(v@),
            None => None::<Seq<char>>,
        }),
{
    let key = cookie::Key::derive_from(material);
    let mut jar = cookie::CookieJar::new();
    jar.add_original(cookie::Cookie::new(name.to_owned(), cipher.to_owned()));
    jar.private(&key).get(name).map(|c| c.value().to_owned())
}

/// Relies on cookie::PrivateJar::add (authenticated encryption under the
/// key derived from the material, with the cookie name as associated data)
/// and its documented guarantee that decryption with the same key always
/// succeeds on a value the jar itself sealed, returning that value.
#[verifier::external_body]
fn seal_value(material: &Vec<u8>, name: &str, value: &str) -> (r: String)
    requires
        material@.len() >= 32,
    ensures
        unseal_of(material@, name@, r@) == Some(value@),
{
    let key = cookie::Key::derive_from(material);
    let mut jar = cookie::CookieJar::new();
    jar.private_mut(&key).add(cookie::Cookie::new(name.to_owned(), value.to_owned()));
    jar.get(name).expect("jar holds the cookie just added").value().to_owned()
}

/// The percent-encoded `name=value` pair that opens a rendered Set-Cookie
/// header: a deterministic function of the cookie name and value alone.
pub uninterp spec fn cookie_pair_of(name: Seq<char>, value: Seq<char>) -> Seq<char>;

/// The last Unix timestamp the cookie date format can carry: the final
/// second of year 9999.
pub const MAX_COOKIE_EXPIRY: i64 = 253402300799;

/// An expiry timestamp clamped into what the cookie date format can carry:
/// nothing earlier than the epoch, nothing later than year 9999.
pub open spec fn spec_clamp_expiry(t: int) -> int {
    if t < 0 {
        0
    } else if t > MAX_COOKIE_EXPIRY as int {
        MAX_COOKIE_EXPIRY as int
    } else {
        t
    }
}

/// Relies on time::OffsetDateTime::now_utc (and unix_timestamp): the
/// current clock reading; nothing is assumed of it.
#[verifier::external_body]
fn now_unix_seconds() -> i64 {
    time::OffsetDateTime::now_utc().unix_timestamp()
}

/// The moment `delta` seconds from `now`, clamped into what the cookie
/// date format can carry.
fn expiry_timestamp(now: i64, delta: i64) -> (t: i64)
    ensures
        t == spec_clamp_expiry(now + delta),
{
    if delta >= 0 {
        if now > MAX_COOKIE_EXPIRY - delta {
            MAX_COOKIE_EXPIRY
        } else {
            let s = now + delta;
            if s < 0 {
                0
            } else {
                s
            }
        }
    } else {
        if now < i64::MIN - delta {
            // The mathematical sum falls below i64, far before the epoch.
            0
        } else {
            let s = now + delta;
            if s < 0 {
                0
            } else if s > MAX_COOKIE_EXPIRY {
                MAX_COOKIE_EXPIRY
            } else {
                s
            }
        }
    }
}

/// The SameSite policy of the session cookie.  `Unrestricted` stands for
/// the cookie attribute that allows cross-site sending.
#[derive(Clone, Copy)]
pub enum SameSitePolicy {
    Strict,
    Lax,
    Unrestricted,
}

/// The session cookie codec and its configuration: the symmetric key
/// material and the attributes of the cookie it writes.  Durations are in
/// whole seconds.
pub struct CookieSession {
    pub key_material: Vec<u8>,
    pub name: String,
    pub path: String,
    pub domain: Option<String>,
    pub secure: bool,
    pub http_only: bool,
    pub max_age: Option<i64>,
    pub expires_in: Option<i64>,
    pub same_site: Option<SameSitePolicy>,
}

/// What decoding a cookie value yields under a given client profile: the
/// embedded user key, only when the value decrypts and the embedded
/// fingerprint matches the profile's; `None` otherwise, and always `None`
/// without a cookie.
pub open spec fn spec_session_decode(
    material: Seq<u8>,
    name: Seq<char>,
    cookie: Option<Seq<char>>,
    addr: Option<Seq<char>>,
    agent: Option<Seq<char>>,
) -> Option<Seq<char>> {
    match cookie {
        None => None,
        Some(c) => match unseal_of(material, name, c) {
            None => None,
            Some(payload) => spec_open_payload(payload, spec_fingerprint_of(addr, agent)),
        },
    }
}

/// A committed Set-Cookie header for a given stored key and client
/// profile: the header opens with the percent-encoded pair of the cookie
/// name and a sealed value, and that value decodes, under the profile the
/// cookie was written for, to exactly the stored key — and to nothing
/// under any profile with a different fingerprint.
pub open spec fn spec_committed_value(
    s: CookieSession,
    header: Seq<char>,
    key: Option<Seq<char>>,
    addr: Option<Seq<char>>,
    agent: Option<Seq<char>>,
) -> bool {
    exists|value: Seq<char>, attrs: Seq<char>|
        {
            &&& header == #[trigger] (cookie_pair_of(s.name@, value) + attrs)
            &&& spec_session_decode(s.key_material@, s.name@, Some(value), addr, agent) == key
            &&& forall|addr2: Option<Seq<char>>, agent2: Option<Seq<char>>|
                spec_fingerprint_of(addr2, agent2) != spec_fingerprint_of(addr, agent)
                    ==> spec_session_decode(
                        s.key_material@,
                        s.name@,
                        Some(value),
                        addr2,
                        agent2,
                    ) is None
        }
}

impl CookieSession {
    /// Usable key material: the jar key derivation needs 32 bytes at
    /// least.
    pub open spec fn well_formed(&self) -> bool {
        self.key_material@.len() >= 32
    }

    /// A codec deriving its cookie-jar key from the given material, with
    /// the default attributes: cookie `_session` on path `/`, secure,
    /// http-only, with no domain, age, expiry or SameSite attribute.
    pub fn new(key: &[u8]) -> (r: Self)
        requires
            key@.len() >= 32,
        ensures
            r.key_material@ == key@,
            r.name@ == "_session"@,
            r.path@ == "/"@,
            r.domain is None,
            r.secure == true,
            r.http_only == true,
            r.max_age is None,
            r.expires_in is None,
            r.same_site is None,
            r.well_formed(),
    {
        Self {
            key_material: vstd::slice::slice_to_vec(key),
            name: String::from_str("_session"),
            path: String::from_str("/"),
            domain: None,
            secure: true,
            http_only: true,
            max_age: None,
            expires_in: None,
            same_site: None,
        }
    }

    /// Sets the cookie name. Default `_session`.
    pub fn name(self, name: &'static str) -> (r: Self)
        ensures
            r.name@ == name@,
            r == (CookieSession { name: r.name, ..self }),
    {
        Self { name: name.to_owned(), ..self }
    }

    /// Sets the secure attribute. Default true.
    pub fn secure(self, secure: bool) -> (r: Self)
        ensures
            r.secure == secure,
            r == (CookieSession { secure: r.secure, ..self }),
    {
        Self { secure, ..self }
    }

    /// Sets the http-only attribute. Default true.
    pub fn http_only(self, http_only: bool) -> (r: Self)
        ensures
            r.http_only == http_only,
            r == (CookieSession { http_only: r.http_only, ..self }),
    {
        Self { http_only, ..self }
    }

    /// Sets the domain attribute. Default none.
    pub fn domain(self, domain: Option<String>) -> (r: Self)
        ensures
            r.domain == domain,
            r == (CookieSession { domain: r.domain, ..self }),
    {
        Self { domain, ..self }
    }

    /// Sets the max-age attribute, in seconds. Default none.
    pub fn max_age(self, max_age: Option<i64>) -> (r: Self)
        ensures
            r.max_age == max_age,
            r == (CookieSession { max_age: r.max_age, ..self }),
    {
        Self { max_age, ..self }
    }

    /// Sets the expiry delay, in seconds from the moment the cookie is
    /// written. Default none.
    pub fn expires_in(self, expires_in: Option<i64>) -> (r: Self)
        ensures
            r.expires_in == expires_in,
            r == (CookieSession { expires_in: r.expires_in, ..self }),
    {
        Self { expires_in, ..self }
    }

    /// Sets the SameSite attribute. Default none.
    pub fn same_site(self, same_site: Option<SameSitePolicy>) -> (r: Self)
        ensures
            r.same_site == same_site,
            r == (CookieSession { same_site: r.same_site, ..self }),
    {
        Self { same_site, ..self }
    }

    /// Seals a session for the given user key under the client profile of
    /// the request at hand: the result is a cookie value that decodes back
    /// to exactly that key under the same profile, and to nothing under
    /// any profile with a different fingerprint.
    pub fn encode_value(&self, user_key: Option<&str>, addr: Option<&str>, agent: Option<&str>) -> (r:
        String)
        requires
            self.well_formed(),
        ensures
            spec_session_decode(
                self.key_material@,
                self.name@,
                Some(r@),
                addr.deep_view(),
                agent.deep_view(),
            ) == user_key.deep_view(),
            forall|addr2: Option<Seq<char>>, agent2: Option<Seq<char>>|
                spec_fingerprint_of(addr2, agent2) != spec_fingerprint_of(
                    addr.deep_view(),
                    agent.deep_view(),
                ) ==> spec_session_decode(
                    self.key_material@,
                    self.name@,
                    Some(r@),
                    addr2,
                    agent2,
                ) is None,
    {
        let fp = create_identifier(addr, agent);
        let rec = SessionRecord {
            fingerprint: fp,
            user_key: match user_key {
                Some(k) => Some(k.to_owned()),
                None => None,
            },
        };
        let payload = encode_record(&rec);
        let sealed = seal_value(&self.key_material, self.name.as_str(), payload.as_str());
        proof {
            lemma_payload_round_trip(rec.fingerprint@, rec.user_key.deep_view());
            assert forall|addr2: Option<Seq<char>>, agent2: Option<Seq<char>>|
                spec_fingerprint_of(addr2, agent2) != spec_fingerprint_of(
                    addr.deep_view(),
                    agent.deep_view(),
                ) implies spec_session_decode(
                self.key_material@,
                self.name@,
                Some(sealed@),
                addr2,
                agent2,
            ) is None by {
                lemma_fingerprint_binding(
                    rec.fingerprint@,
                    spec_fingerprint_of(addr2, agent2),
                    rec.user_key.deep_view(),
                );
            }
        }
        sealed
    }

    /// Seals a session and renders the full Set-Cookie header carrying it
    /// with all configured attributes; an expiry delay is clamped into what
    /// the cookie date format can carry.  Succeeds with a well-formed
    /// header value that commits exactly the given key, and fails only when
    /// the rendered header would not be a well-formed header value.
    fn commit(&self, user_key: Option<&str>, addr: Option<&str>, agent: Option<&str>) -> (r:
        Result<Option<String>, EncodeError>)
        requires
            self.well_formed(),
        ensures
            r matches Ok(h) ==> h is Some,
            r matches Ok(h) ==> (h matches Some(hdr) ==> spec_valid_header(hdr@)
                && spec_committed_value(
                *self,
                hdr@,
                user_key.deep_view(),
                addr.deep_view(),
                agent.deep_view(),
            )),
    {
        let value = self.encode_value(user_key, addr, agent);
        let expires_at = match self.expires_in {
            None => None,
            Some(delta) => Some(expiry_timestamp(now_unix_seconds(), delta)),
        };
        let header = format_set_cookie(self, value.as_str(), expires_at);
        proof {
            let attrs = choose|attrs: Seq<char>|
                header@ == #[trigger] (cookie_pair_of(self.name@, value@) + attrs);
            assert(header@ == cookie_pair_of(self.name@, value@) + attrs);
        }
        if valid_header_value(header.as_str()) {
            Ok(Some(header))
        } else {
            Err(EncodeError::InvalidHeaderValue)
        }
    }
}

/// Declares cookie::SameSite so that the formatting wrapper below can
/// hand it to the cookie builder.
#[verifier::external_type_specification]
#[verifier::external_body]
pub struct ExSameSite(cookie::SameSite);

/// Relies on cookie::SameSite: the cookie attribute value standing for
/// each policy.
#[verifier::external_body]
fn same_site_of(p: SameSitePolicy) -> cookie::SameSite {
    match p {
        SameSitePolicy::Strict => cookie::SameSite::Strict,
        SameSitePolicy::Lax => cookie::SameSite::Lax,
        SameSitePolicy::Unrestricted => cookie::SameSite::None,
    }
}

/// Relies on cookie::CookieBuilder's attribute setters and on Cookie's
/// `encoded` display, which writes the percent-encoded `name=value` pair
/// first and the attribute text after it; on time::Duration::seconds
/// (plain construction) for Max-Age; and on
/// time::OffsetDateTime::from_unix_timestamp for Expires, which accepts
/// every timestamp the `requires` admits, so the rendering cannot fail.
#[verifier::external_body]
fn format_set_cookie(s: &CookieSession, value: &str, expires_at: Option<i64>) -> (r: String)
    requires
        expires_at matches Some(t) ==> 0 <= t <= MAX_COOKIE_EXPIRY,
    ensures
        exists|attrs: Seq<char>| r@ == #[trigger] (cookie_pair_of(s.name@, value@) + attrs),
{
    let mut b = cookie::Cookie::build((s.name.clone(), value.to_owned()))
        .path(s.path.clone()).secure(s.secure).http_only(s.http_only);
    if let Some(d) = &s.domain {
        b = b.domain(d.clone());
    }
    if let Some(m) = s.max_age {
        b = b.max_age(time::Duration::seconds(m));
    }
    if let Some(t) = expires_at {
        b = b.expires(time::OffsetDateTime::from_unix_timestamp(t).expect("timestamp in range"));
    }
    if let Some(p) = s.same_site {
        b = b.same_site(same_site_of(p));
    }
    b.build().encoded().to_string()
}

impl DecodeRequest for CookieSession {
    open spec fn valid(&self) -> bool {
        self.well_formed()
    }

    open spec fn spec_committed(
        &self,
        pending: Pending,
        addr: Option<Seq<char>>,
        agent: Option<Seq<char>>,
        header: Seq<char>,
    ) -> bool {
        spec_committed_value(*self, header, spec_stored_key_of(pending), addr, agent)
    }

    open spec fn spec_decode(
        &self,
        cookie: Option<Seq<char>>,
        addr: Option<Seq<char>>,
        agent: Option<Seq<char>>,
    ) -> Option<Seq<char>> {
        spec_session_decode(self.key_material@, self.name@, cookie, addr, agent)
    }

    fn decode(&self, cookie: Option<&str>, addr: Option<&str>, agent: Option<&str>) -> (r: Option<
        String,
    >) {
        match cookie {
            None => None,
            Some(c) => match unseal_value(&self.key_material, self.name.as_str(), c) {
                None => None,
                Some(payload) => match parse_record(payload.as_str()) {
                    None => None,
                    Some(rec) => {
                        let fp = create_identifier(addr, agent);
                        if rec.fingerprint == fp {
                            rec.user_key
                        } else {
                            None
                        }
                    },
                },
            },
        }
    }

    fn update(&self, pending: &Pending, addr: Option<&str>, agent: Option<&str>) -> (r: Result<
        Option<String>,
        EncodeError,
    >) {
        match pending {
            Pending::Noop => Ok(None),
            Pending::Clear => self.commit(None, addr, agent),
            Pending::Store(k) => if k.as_str().is_empty() {
                self.commit(None, addr, agent)
            } else {
                self.commit(Some(k.as_str()), addr, agent)
            },
        }
    }
}

} // verus!
