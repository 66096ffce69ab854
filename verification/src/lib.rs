//! A request-scoped session-authentication layer: a signed, encrypted,
//! fingerprint-bound session cookie, a per-request login state machine, a
//! lazily memoized user resolver, and the middleware decisions that tie them
//! to a request/response lifecycle.
//!
//! Decode failures of every kind are silent and leave the request anonymous;
//! a key the provider cannot read fails its resolution as unauthorized.

use vstd::prelude::*;

pub mod cookie_session;
pub mod fingerprint;
pub mod hex;
pub mod login_state;
pub mod manager;
pub mod session;
pub mod user;

pub use cookie_session::{CookieSession, SameSitePolicy};
pub use login_state::{LoginInfo, LoginState, Pending};
pub use manager::{DecodeRequest, EncodeError, LoginManager, ResponseDirective};
pub use user::{
    AuthError, RequestContext, ResolveStep, SimpleUser, UserMinix, UserWrap, UserWrapAuth,
};

verus! {

/// Relies on String::push: appends exactly the given character.
pub assume_specification[ String::push ](s: &mut String, c: char)
    ensures
        final(s)@ == old(s)@.push(c),
;

/// Records a login: the user's serialized key becomes the pending session
/// mutation of this request, overwriting whatever was recorded before.
pub fn login<U: UserMinix>(user: &U, ctx: &mut RequestContext<U>)
    ensures
        final(ctx).info.state matches LoginState::Login(k) && k@ == user.spec_key_str(),
        final(ctx).info.key_str == old(ctx).info.key_str,
        final(ctx).user == old(ctx).user,
{
    ctx.info.state = LoginState::Login(user.key_str());
}

/// Records a logout: clearing the session becomes the pending mutation of
/// this request, overwriting whatever was recorded before.
pub fn logout<U: UserMinix>(_user: &U, ctx: &mut RequestContext<U>)
    ensures
        final(ctx).info.state is Logout,
        final(ctx).info.key_str == old(ctx).info.key_str,
        final(ctx).user == old(ctx).user,
{
    ctx.info.state = LoginState::Logout;
}

} // verus!
