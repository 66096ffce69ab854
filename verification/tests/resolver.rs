//! Tests of the login state machine and of the lazy, memoized,
//! request-scoped user resolution.

use loginmanager::login_state::{pending_of, LoginInfo, LoginState, Pending};
use loginmanager::user::{RequestContext, ResolveStep, SimpleUser, UserMinix, UserWrap, UserWrapAuth};
use loginmanager::{login, logout};

fn user(key: &str, authenticated: bool, actived: bool) -> SimpleUser {
    SimpleUser { key: key.to_string(), authenticated, actived }
}

#[test]
fn login_info_keeps_its_parts() {
    let info = LoginInfo::new(Some("42".to_string()), LoginState::Wait);
    assert_eq!(info.key_str.as_deref(), Some("42"));
    assert!(matches!(info.state, LoginState::Wait));
}

#[test]
fn login_then_logout_clears() {
    // Last write wins: the logout, not the login, decides the outcome.
    let info = LoginInfo::new(None, LoginState::Wait);
    let mut ctx = RequestContext::<SimpleUser>::new(info);
    let u = user("alice", true, true);
    login(&u, &mut ctx);
    logout(&u, &mut ctx);
    assert!(matches!(pending_of(&ctx.info.state), Pending::Clear));
}

#[test]
fn logout_then_login_stores_the_key() {
    let info = LoginInfo::new(None, LoginState::Wait);
    let mut ctx = RequestContext::<SimpleUser>::new(info);
    let u = user("alice", true, true);
    logout(&u, &mut ctx);
    login(&u, &mut ctx);
    match pending_of(&ctx.info.state) {
        Pending::Store(k) => assert_eq!(k, "alice"),
        _ => panic!("a later login must store its key"),
    }
}

#[test]
fn waiting_state_commits_nothing() {
    assert!(matches!(pending_of(&LoginState::Wait), Pending::Noop));
    assert!(matches!(pending_of(&LoginState::Valid), Pending::Noop));
    assert!(matches!(pending_of(&LoginState::Failed), Pending::Noop));
}

#[test]
fn login_with_empty_key_clears() {
    assert!(matches!(pending_of(&LoginState::Login(String::new())), Pending::Clear));
    assert!(matches!(pending_of(&LoginState::Update(String::new())), Pending::Clear));
}

#[test]
fn update_state_stores_its_key() {
    match pending_of(&LoginState::Update("bob".to_string())) {
        Pending::Store(k) => assert_eq!(k, "bob"),
        _ => panic!("an update must store its key"),
    }
}

#[test]
fn resolution_without_credentials_fails() {
    let info = LoginInfo::new(None, LoginState::Wait);
    let ctx = RequestContext::<SimpleUser>::new(info);
    assert!(matches!(ctx.resolve_step(), ResolveStep::NoCredentials));
}

#[test]
fn resolution_is_memoized_within_a_request() {
    let info = LoginInfo::new(Some("alice".to_string()), LoginState::Wait);
    let mut ctx = RequestContext::<SimpleUser>::new(info);

    // First resolution: the context asks for a provider lookup.
    let key = match ctx.resolve_step() {
        ResolveStep::LookupKey(k) => k,
        _ => panic!("a decoded key must be looked up"),
    };
    assert_eq!(key, "alice");
    let found = user(&key, true, true);
    let first = ctx.resolve_finish(Some(found)).expect("a found user resolves");

    // Second resolution: answered from the cache, no lookup requested.
    assert!(matches!(ctx.resolve_step(), ResolveStep::UseCached));
    let second = ctx.cached_user();
    assert_eq!(first.user().key, second.user().key);
}

#[test]
fn provider_miss_fails_and_caches_nothing() {
    let info = LoginInfo::new(Some("nobody".to_string()), LoginState::Wait);
    let mut ctx = RequestContext::<SimpleUser>::new(info);
    assert!(ctx.resolve_finish(None).is_err());
    // The miss is not memoized: the next access asks the provider again.
    assert!(matches!(ctx.resolve_step(), ResolveStep::LookupKey(_)));
}

#[test]
fn no_leakage_across_requests() {
    // Both requests carry the same key under the same configuration; a
    // resolution in the first must not become visible in the second.
    let mut ctx1 = RequestContext::<SimpleUser>::new(LoginInfo::new(
        Some("alice".to_string()),
        LoginState::Wait,
    ));
    let ctx2 = RequestContext::<SimpleUser>::new(LoginInfo::new(
        Some("alice".to_string()),
        LoginState::Wait,
    ));
    ctx1.resolve_finish(Some(user("alice", true, true))).expect("resolves");
    assert!(matches!(ctx1.resolve_step(), ResolveStep::UseCached));
    assert!(matches!(ctx2.resolve_step(), ResolveStep::LookupKey(_)));
}

#[test]
fn guard_rejects_inactive_user() {
    // The plain resolver returns the user; the guard refuses it.
    let info = LoginInfo::new(Some("carol".to_string()), LoginState::Wait);
    let mut ctx = RequestContext::<SimpleUser>::new(info);
    let w = ctx.resolve_finish(Some(user("carol", true, false))).expect("plain resolution succeeds");
    assert!(UserWrapAuth::from_wrap(w).is_err());
}

#[test]
fn guard_rejects_unauthenticated_user() {
    let w = UserWrap::new(user("carol", false, true));
    assert!(UserWrapAuth::from_wrap(w).is_err());
}

#[test]
fn guard_admits_active_authenticated_user() {
    let w = UserWrap::new(user("carol", true, true));
    let a = UserWrapAuth::from_wrap(w).expect("the guard admits this user");
    assert_eq!(a.user().key, "carol");
}

#[test]
fn user_wrap_shares_one_user() {
    let w = UserWrap::new(user("dave", true, true));
    let w2 = w.clone();
    assert_eq!(w.user().key, "dave");
    assert_eq!(w2.user().key, "dave");
    assert_eq!(w.user().key_str(), "dave");
    assert!(w.user().is_authenticated());
    assert!(w.user().is_actived());
    assert_eq!(w.user().get_id(), "dave");
}
