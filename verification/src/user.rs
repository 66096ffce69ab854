//! Users and their lazy, request-scoped resolution.  A provider capability
//! (the `UserMinix` trait) turns a decoded key into a concrete identity;
//! the request context memoizes the resolved identity so the provider is
//! consulted at most once per request, and never across requests.

use vstd::prelude::*;

use crate::login_state::LoginInfo;

use std::rc::Rc;

verus! {

/// A resolution failure: no credentials, unknown credentials, or an
/// identity the guard rejects.
#[derive(Debug)]
pub enum AuthError {
    Unauthorized,
}

/// The provider capability behind the resolver: a user exposes its key,
/// the key's serialized form, and its authentication and activity status.
/// The asynchronous lookup from key to user belongs to the surrounding
/// framework; the resolver receives its outcome as a plain value.
///
/// The conventional implementation answers both status queries with true;
/// an implementor states them explicitly, so that the guard's verdict is
/// visible in the implementor's own specification.
pub trait UserMinix: Sized {
    /// The provider's key type.
    type Key;

    /// This user's key.
    spec fn spec_key(&self) -> Self::Key;

    /// The serialized form of this user's key.
    spec fn spec_key_str(&self) -> Seq<char>;

    /// Whether this user counts as authenticated.
    spec fn spec_is_authenticated(&self) -> bool;

    /// Whether this user counts as active.
    spec fn spec_is_actived(&self) -> bool;

    /// Returns the user's key.
    fn get_id(&self) -> (k: Self::Key)
        ensures
            k == self.spec_key(),
    ;

    /// Returns the serialized form of the user's key, as stored in the
    /// session cookie.
    fn key_str(&self) -> (s: String)
        ensures
            s@ == self.spec_key_str(),
    ;

    /// Returns the user's actual authentication status.
    fn is_authenticated(&self) -> (b: bool)
        ensures
            b == self.spec_is_authenticated(),
    ;

    /// Returns the user's actual active status.
    fn is_actived(&self) -> (b: bool)
        ensures
            b == self.spec_is_actived(),
    ;
}

/// A shared-ownership handle to a resolved user, shared by every access
/// within one request and discarded with it.
pub struct UserWrap<T>(pub Rc<T>);

impl<T> UserWrap<T> {
    /// Wraps a user value.
    pub fn new(user: T) -> (r: Self)
        ensures
            r.0 == user,
    {
        UserWrap(Rc::new(user))
    }

    /// The wrapped user.
    pub fn user(&self) -> (r: &T)
        ensures
            *r == self.0,
    {
        &*self.0
    }
}

impl<T> Clone for UserWrap<T> {
    fn clone(&self) -> (r: Self)
        ensures
            r == *self,
    {
        UserWrap(self.0.clone())
    }
}

/// A resolved user that has passed the guard: it is authenticated and
/// active.
pub struct UserWrapAuth<U>(pub UserWrap<U>);

impl<U: UserMinix> UserWrapAuth<U> {
    /// The guard: admits a resolved user exactly when it is authenticated
    /// and active, and rejects it as `Unauthorized` otherwise.
    pub fn from_wrap(w: UserWrap<U>) -> (r: Result<UserWrapAuth<U>, AuthError>)
        ensures
            (w.0.spec_is_authenticated() && w.0.spec_is_actived()) <==> (r matches Ok(a) && a.0
                == w),
            !(w.0.spec_is_authenticated() && w.0.spec_is_actived()) <==> r == Err::<
                UserWrapAuth<U>,
                AuthError,
            >(AuthError::Unauthorized),
    {
        let actived = w.user().is_actived();
        let authenticated = w.user().is_authenticated();
        if actived && authenticated {
            Ok(UserWrapAuth(w))
        } else {
            Err(AuthError::Unauthorized)
        }
    }

    /// The wrapped user.
    pub fn user(&self) -> (r: &U)
        ensures
            *r == self.0.0,
    {
        self.0.user()
    }
}

/// What the resolver must do next for a given request context: answer from
/// the cache, fail for want of credentials, or ask the provider to look a
/// key up.
pub enum ResolveStep {
    UseCached,
    NoCredentials,
    LookupKey(String),
}

/// The per-request scratch state the middleware and the resolver work on:
/// the login record and the memoized resolved user.  A context belongs to
/// exactly one request and is discarded with it.
pub struct RequestContext<U> {
    pub info: LoginInfo,
    pub user: Option<UserWrap<U>>,
}

impl<U> RequestContext<U> {
    /// A fresh context for a new request: nothing resolved yet.
    pub fn new(info: LoginInfo) -> (r: Self)
        ensures
            r.info == info,
            r.user is None,
    {
        RequestContext { info, user: None }
    }

    /// What the resolver must do next: a cached identity is answered as it
    /// stands; otherwise the decoded key, if any, is to be looked up.
    pub open spec fn spec_resolve_step(&self) -> ResolveStep {
        if self.user is Some {
            ResolveStep::UseCached
        } else {
            match self.info.key_str {
                None => ResolveStep::NoCredentials,
                Some(k) => ResolveStep::LookupKey(k),
            }
        }
    }

    /// Decides the next resolution step for this context.
    pub fn resolve_step(&self) -> (r: ResolveStep)
        ensures
            r == self.spec_resolve_step(),
    {
        match &self.user {
            Some(_) => ResolveStep::UseCached,
            None => match &self.info.key_str {
                None => ResolveStep::NoCredentials,
                Some(k) => ResolveStep::LookupKey(k.clone()),
            },
        }
    }

    /// Returns the memoized identity without consulting the provider.
    pub fn cached_user(&self) -> (r: UserWrap<U>)
        requires
            self.user is Some,
        ensures
            self.user == Some(r),
    {
        match &self.user {
            Some(w) => w.clone(),
            None => unreached(),
        }
    }

    /// Finishes a resolution with the provider's outcome: a found user is
    /// memoized and returned; a miss (or a key the provider could not
    /// read) fails as `Unauthorized` and caches nothing.
    pub fn resolve_finish(&mut self, found: Option<U>) -> (r: Result<UserWrap<U>, AuthError>)
        requires
            old(self).user is None,
        ensures
            final(self).info == old(self).info,
            match found {
                Some(u) => (r matches Ok(w) && w.0 == u && final(self).user == Some(w)),
                None => r == Err::<UserWrap<U>, AuthError>(AuthError::Unauthorized)
                    && final(self).user is None,
            },
    {
        match found {
            Some(u) => {
                let w = UserWrap::new(u);
                self.user = Some(w.clone());
                Ok(w)
            },
            None => Err(AuthError::Unauthorized),
        }
    }
}

/// Resolution is memoized: once a request's resolution has succeeded and
/// filled the cache, every later resolution step of that request answers
/// from the cache — the provider is consulted at most once per request —
/// and the cached identity is the one that was stored.
pub proof fn lemma_resolution_memoized<U>(
    pre: RequestContext<U>,
    post: RequestContext<U>,
    w: UserWrap<U>,
)
    requires
        pre.user is None,
        post.info == pre.info,
        post.user == Some(w),
    ensures
        post.spec_resolve_step() == ResolveStep::UseCached,
{
}

/// No cross-request leakage: a context whose cache is empty — as every
/// fresh request's context is — can never answer a resolution from a
/// cache, whatever any other request resolved.
pub proof fn lemma_no_cross_request_leakage<U>(ctx: RequestContext<U>)
    requires
        ctx.user is None,
    ensures
        ctx.spec_resolve_step() != ResolveStep::UseCached,
{
}

/// A minimal concrete identity: a serialized key and explicit
/// authentication and activity status.
pub struct SimpleUser {
    pub key: String,
    pub authenticated: bool,
    pub actived: bool,
}

impl UserMinix for SimpleUser {
    type Key = String;

    open spec fn spec_key(&self) -> String {
        self.key
    }

    open spec fn spec_key_str(&self) -> Seq<char> {
        self.key@
    }

    open spec fn spec_is_authenticated(&self) -> bool {
        self.authenticated
    }

    open spec fn spec_is_actived(&self) -> bool {
        self.actived
    }

    fn get_id(&self) -> Self::Key {
        self.key.clone()
    }

    fn key_str(&self) -> (s: String) {
        self.key.clone()
    }

    fn is_authenticated(&self) -> (b: bool) {
        self.authenticated
    }

    fn is_actived(&self) -> (b: bool) {
        self.actived
    }
}

} // verus!
