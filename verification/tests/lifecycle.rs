use portal_request::driver::{publish_request, settle_request, RaceEvent};
use portal_request::registry::{DuplicateIdentity, Registry};
use portal_request::request::{CancelToken, Request, RequestState};
use portal_request::response::Response;

#[test]
fn success_without_cancel() {
    // Scenario: a request resolves to Success(42) with no cancel call.
    let mut reg = Registry::new();
    let id = String::from("req/1");
    assert!(publish_request(&mut reg, &id).is_ok());
    assert!(reg.contains(&id));
    let out = settle_request(&mut reg, &id, RaceEvent::Completed(Response::Success(42)));
    assert!(matches!(out.response, Response::Success(42)));
    assert!(!out.notify_cancel);
    assert!(!reg.contains(&id));
    let req = out.request.expect("the request was live");
    assert_eq!(req.state(), RequestState::Completed);
    assert_eq!(req.identity(), &id);
}

#[test]
fn cancel_before_completion() {
    // Scenario: cancel arrives before the business future resolves.
    let mut reg = Registry::new();
    let id = String::from("req/2");
    assert!(publish_request(&mut reg, &id).is_ok());
    let fired = reg.cancel(&id);
    assert!(fired);
    assert_eq!(reg.is_cancelled(&id), Some(true));
    let out = settle_request::<u32>(&mut reg, &id, RaceEvent::CancelSignalled);
    assert!(out.response.is_cancelled());
    // The cleanup notification is owed exactly once: by this settlement.
    assert!(out.notify_cancel);
    assert!(!reg.contains(&id));
    assert_eq!(out.request.expect("live").state(), RequestState::Cancelled);
}

#[test]
fn stale_cancel_is_silent_noop() {
    // Scenario: a cancel call for an identity that was never registered.
    let mut reg = Registry::new();
    let id = String::from("req/3");
    let fired = reg.cancel(&id);
    assert!(!fired);
    assert!(!reg.contains(&id));
}

#[test]
fn duplicate_identity_rejected() {
    // Scenario: a second publication at a live identity fails, the first
    // request proceeds unaffected.
    let mut reg = Registry::new();
    let id = String::from("req/4");
    assert!(publish_request(&mut reg, &id).is_ok());
    assert_eq!(publish_request(&mut reg, &id), Err(DuplicateIdentity));
    assert!(reg.contains(&id));
    assert_eq!(reg.is_cancelled(&id), Some(false));
    let out = settle_request(&mut reg, &id, RaceEvent::Completed(Response::Success(7u8)));
    assert!(matches!(out.response, Response::Success(7)));
}

#[test]
fn failure_collapses_to_other() {
    // Scenario: the business future fails unexpectedly.
    let mut reg = Registry::new();
    let id = String::from("req/5");
    assert!(publish_request(&mut reg, &id).is_ok());
    let out = settle_request::<u32>(&mut reg, &id, RaceEvent::Failed);
    assert!(out.response.is_other());
    assert_eq!(out.response.into_payload(), None);
    assert!(!out.notify_cancel);
    assert!(!reg.contains(&id));
}

#[test]
fn distinct_identities_live_together() {
    let mut reg = Registry::new();
    let a = String::from("req/a");
    let b = String::from("req/b");
    assert!(publish_request(&mut reg, &a).is_ok());
    assert!(publish_request(&mut reg, &b).is_ok());
    assert!(reg.contains(&a));
    assert!(reg.contains(&b));
    let _ = settle_request::<u32>(&mut reg, &a, RaceEvent::Failed);
    assert!(!reg.contains(&a));
    assert!(reg.contains(&b));
}

#[test]
fn cancel_twice_same_as_once() {
    let mut reg = Registry::new();
    let id = String::from("req/twice");
    assert!(publish_request(&mut reg, &id).is_ok());
    assert!(reg.cancel(&id));
    assert!(!reg.cancel(&id));
    assert_eq!(reg.is_cancelled(&id), Some(true));
}

#[test]
fn cancel_after_completion_is_noop() {
    let mut reg = Registry::new();
    let id = String::from("req/done");
    assert!(publish_request(&mut reg, &id).is_ok());
    let _ = settle_request(&mut reg, &id, RaceEvent::Completed(Response::Success(1u8)));
    assert!(!reg.cancel(&id));
    assert!(!reg.contains(&id));
}

#[test]
fn business_completion_used_verbatim_even_after_token_fired() {
    // The race is decided by whichever activity finished first: when the
    // business future finished first its response stands, the fired token
    // notwithstanding.
    let mut reg = Registry::new();
    let id = String::from("req/race");
    assert!(publish_request(&mut reg, &id).is_ok());
    assert!(reg.cancel(&id));
    let out = settle_request(&mut reg, &id, RaceEvent::Completed(Response::Success(9u16)));
    assert!(matches!(out.response, Response::Success(9)));
    assert!(!out.notify_cancel);
}

#[test]
fn identity_reusable_after_settlement() {
    let mut reg = Registry::new();
    let id = String::from("req/reuse");
    assert!(publish_request(&mut reg, &id).is_ok());
    let _ = settle_request::<u32>(&mut reg, &id, RaceEvent::CancelSignalled);
    assert!(publish_request(&mut reg, &id).is_ok());
    assert_eq!(reg.is_cancelled(&id), Some(false));
}

#[test]
fn every_event_settles_to_exactly_one_response() {
    // One terminal response per request, in every order of (completion,
    // cancellation, failure).
    for kind in 0..3 {
        let mut reg = Registry::new();
        let id = String::from("req/order");
        assert!(publish_request(&mut reg, &id).is_ok());
        let event = match kind {
            0 => RaceEvent::Completed(Response::Success(5u8)),
            1 => RaceEvent::CancelSignalled,
            _ => RaceEvent::Failed,
        };
        let out = settle_request(&mut reg, &id, event);
        let tally = [
            out.response.is_success(),
            out.response.is_cancelled(),
            out.response.is_other(),
        ]
        .iter()
        .filter(|b| **b)
        .count();
        assert_eq!(tally, 1);
        assert!(!reg.contains(&id));
    }
}

#[test]
fn token_is_one_shot() {
    let mut t = CancelToken::new();
    assert!(!t.is_cancelled());
    assert!(t.cancel());
    assert!(t.is_cancelled());
    assert!(!t.cancel());
    assert!(t.is_cancelled());
}

#[test]
fn request_states_move_forward() {
    let mut req = Request::new(String::from("req/fresh"));
    assert_eq!(req.state(), RequestState::Pending);
    assert!(!req.cancel_requested());
    assert!(req.cancel());
    assert_eq!(req.state(), RequestState::Pending);
    req.finish(RequestState::Cancelled);
    assert_eq!(req.state(), RequestState::Cancelled);
}

#[test]
fn response_constructors() {
    let r: Response<u32> = Response::other();
    assert!(r.is_other());
    let c: Response<u32> = Response::cancelled();
    assert!(c.is_cancelled());
    let s = Response::Success(3u32);
    assert!(s.is_success());
    assert_eq!(s.into_payload(), Some(3));
    assert_eq!(Response::<u32>::cancelled().into_payload(), None);
}

#[test]
fn empty_identity_is_an_identity_like_any_other() {
    let mut reg = Registry::new();
    let id = String::new();
    assert!(publish_request(&mut reg, &id).is_ok());
    assert_eq!(publish_request(&mut reg, &id), Err(DuplicateIdentity));
    let out = settle_request::<u8>(&mut reg, &id, RaceEvent::CancelSignalled);
    assert!(out.response.is_cancelled());
    assert!(!reg.contains(&id));
}
