//! The per-request login state machine: the pending session mutation that
//! application code records while a request is handled, and the outcome the
//! middleware commits into the outgoing cookie.

use vstd::prelude::*;

verus! {

/// The pending session mutation of the current request.
///
/// `Wait` is the initial state: a key may have been decoded but nothing was
/// resolved or changed yet.  `Valid` marks a decoded key as good as it
/// stands (no rewrite needed).  `Login` and `Update` carry a serialized key
/// to write.  `Logout` asks for the cookie to be cleared.  `Failed` marks a
/// decode or deserialize failure.
pub enum LoginState {
    Wait,
    Valid,
    Login(String),
    Logout,
    Update(String),
    Failed,
}

/// The request-scoped login record: the key decoded from the incoming
/// cookie, if any, and the state accumulated while the request is handled.
pub struct LoginInfo {
    pub key_str: Option<String>,
    pub state: LoginState,
}

impl LoginInfo {
    /// A login record from its parts.
    pub fn new(key_str: Option<String>, state: LoginState) -> (r: Self)
        ensures
            r.key_str == key_str,
            r.state == state,
    {
        Self { key_str, state }
    }
}

/// The outcome the middleware commits when the response is produced: leave
/// the cookie untouched, clear it, or store a key.
pub enum Pending {
    Noop,
    Clear,
    Store(String),
}

/// The outcome a final state calls for.  A login or update with an empty
/// serialized key clears the session, as an explicit logout does; `Wait`,
/// `Valid` and `Failed` leave the cookie untouched.
pub open spec fn spec_pending_of(state: LoginState) -> Pending {
    match state {
        LoginState::Login(k) => if k@.len() == 0 {
            Pending::Clear
        } else {
            Pending::Store(k)
        },
        LoginState::Update(k) => if k@.len() == 0 {
            Pending::Clear
        } else {
            Pending::Store(k)
        },
        LoginState::Logout => Pending::Clear,
        _ => Pending::Noop,
    }
}

/// Reads the outcome a final state calls for.
pub fn pending_of(state: &LoginState) -> (r: Pending)
    ensures
        r == spec_pending_of(*state),
{
    match state {
        LoginState::Login(k) => if k.as_str().is_empty() {
            Pending::Clear
        } else {
            Pending::Store(k.clone())
        },
        LoginState::Update(k) => if k.as_str().is_empty() {
            Pending::Clear
        } else {
            Pending::Store(k.clone())
        },
        LoginState::Logout => Pending::Clear,
        _ => Pending::Noop,
    }
}

/// The user key a committed outcome stores in the session cookie: a stored
/// non-empty key itself, and nothing for a clear (or for a no-op, which
/// commits no cookie at all).
pub open spec fn spec_stored_key_of(pending: Pending) -> Option<Seq<char>> {
    match pending {
        Pending::Store(k) => if k@.len() == 0 {
            None
        } else {
            Some(k@)
        },
        _ => None,
    }
}

/// The login record after application code calls for a login: the state is
/// overwritten with `Login`, whatever stood there.
pub open spec fn spec_after_login(info: LoginInfo, key: String) -> LoginInfo {
    LoginInfo { state: LoginState::Login(key), ..info }
}

/// The login record after application code calls for a logout: the state is
/// overwritten with `Logout`, whatever stood there.
pub open spec fn spec_after_logout(info: LoginInfo) -> LoginInfo {
    LoginInfo { state: LoginState::Logout, ..info }
}

/// The last write wins: whatever was recorded earlier in the request, a
/// later logout commits a cleared cookie — in particular a login followed
/// by a logout clears, it does not store the logged-in key; the cookie such
/// a commit writes stores no user key at all.  A later login with a
/// non-empty key commits exactly that key, and the committed cookie stores
/// it.
pub proof fn lemma_last_write_wins(info: LoginInfo, key: String)
    ensures
        spec_pending_of(spec_after_logout(spec_after_login(info, key)).state) == Pending::Clear,
        spec_stored_key_of(
            spec_pending_of(spec_after_logout(spec_after_login(info, key)).state),
        ) is None,
        key@.len() != 0 ==> spec_pending_of(spec_after_login(spec_after_logout(info), key).state)
            == Pending::Store(key),
        key@.len() != 0 ==> spec_stored_key_of(
            spec_pending_of(spec_after_login(spec_after_logout(info), key).state),
        ) == Some(key@),
{
}

} // verus!
