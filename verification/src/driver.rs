//! The request driver: the decisions behind `spawn`.
//!
//! Driving one operation means: publish a request at the caller's identity,
//! race the business future against the request's cancellation signal, turn
//! whichever finished first into exactly one terminal response, withdraw the
//! identity, and hand the response back. The two suspension points of that
//! race (the business future and the cancel wait) are asynchronous and live
//! with the bus plumbing outside this library; what stands here, verified,
//! are the two decision halves around them: [`publish_request`] before the
//! race and [`settle_request`] after it.

use vstd::prelude::*;

use crate::registry::{cancel_effect, DuplicateIdentity, Registry};
use crate::request::{Request, RequestState};
use crate::response::Response;

verus! {

/// The first of the raced activities to finish, as the driver observes it.
pub enum RaceEvent<T> {
    /// The business future finished first, with this response.
    Completed(Response<T>),
    /// The cancellation signal fired before the business future finished.
    CancelSignalled,
    /// The business future failed unexpectedly (a panic or a lower-level
    /// dispatch fault) before any cancellation.
    Failed,
}

/// The one response a race event resolves to: a business completion is used
/// verbatim, a won cancellation becomes `Cancelled`, an unexpected failure
/// collapses to `Other` with no detail leaked.
pub open spec fn response_of<T>(event: RaceEvent<T>) -> Response<T> {
    match event {
        RaceEvent::Completed(r) => r,
        RaceEvent::CancelSignalled => Response::Cancelled,
        RaceEvent::Failed => Response::Other,
    }
}

/// The terminal state a race event moves the request to.
pub open spec fn terminal_of<T>(event: RaceEvent<T>) -> RequestState {
    match event {
        RaceEvent::CancelSignalled => RequestState::Cancelled,
        _ => RequestState::Completed,
    }
}

/// Everything `settle_request` decides.
pub struct Settled<T> {
    /// The one terminal response owed to the caller.
    pub response: Response<T>,
    /// Whether the implementation's cancellation cleanup is owed a
    /// fire-and-forget notification: exactly when cancellation won the race.
    pub notify_cancel: bool,
    /// The withdrawn request, now in its terminal state; `None` only if no
    /// request was live at the identity.
    pub request: Option<Request>,
}

/// Publishes a fresh pending request at `identity`. Rejected with
/// `DuplicateIdentity` — the one hard failure of the driver, a caller
/// contract breach — when the identity is already live; the registry is then
/// untouched and the operation never starts.
pub fn publish_request(registry: &mut Registry, identity: &String) -> (r: Result<
    (),
    DuplicateIdentity,
>)
    requires
        old(registry).wf(),
    ensures
        final(registry).wf(),
        old(registry)@.dom().contains(identity@) ==> r is Err && *final(registry) == *old(
            registry,
        ),
        !old(registry)@.dom().contains(identity@) ==> r is Ok && final(registry)@ == old(
            registry,
        )@.insert(identity@, false),
{
    registry.register(Request::new(identity.clone()))
}

/// Resolves the race: produces the one terminal response for `event`,
/// withdraws `identity` from the registry on every path, moves the request
/// to its terminal state, and says whether cancellation cleanup is owed.
/// After this call the identity is free again, whatever ended the race.
pub fn settle_request<T>(registry: &mut Registry, identity: &String, event: RaceEvent<T>) -> (out:
    Settled<T>)
    requires
        old(registry).wf(),
    ensures
        final(registry).wf(),
        final(registry)@ == old(registry)@.remove(identity@),
        !final(registry)@.dom().contains(identity@),
        out.response == response_of(event),
        out.notify_cancel == (event is CancelSignalled),
        out.request is Some <==> old(registry)@.dom().contains(identity@),
        out.request matches Some(req) ==> req@.id == identity@ && req@.state == terminal_of(event)
            && req@.cancel_requested == old(registry)@[identity@],
{
    let withdrawn = registry.unregister(identity);
    let request = match withdrawn {
        Some(mut req) => {
            let terminal = match &event {
                RaceEvent::CancelSignalled => RequestState::Cancelled,
                _ => RequestState::Completed,
            };
            req.finish(terminal);
            Some(req)
        },
        None => None,
    };
    let notify_cancel = matches!(event, RaceEvent::CancelSignalled);
    let response = match event {
        RaceEvent::Completed(r) => r,
        RaceEvent::CancelSignalled => Response::cancelled(),
        RaceEvent::Failed => Response::other(),
    };
    Settled { response, notify_cancel, request }
}

/// Race determinism, and one terminal response per request: every race event
/// resolves to exactly one response and a terminal (never pending) state —
/// a won cancellation always resolves to `Cancelled`, a business completion
/// is always used verbatim, an unexpected failure always collapses to
/// `Other`.
pub proof fn lemma_one_terminal_response<T>(event: RaceEvent<T>)
    ensures
        !(terminal_of::<T>(event) is Pending),
        event is CancelSignalled ==> response_of(event) is Cancelled,
        event is Failed ==> response_of(event) is Other,
        event matches RaceEvent::Completed(r) ==> response_of(event) == r,
{
}

/// After a request settles, its identity is no longer registered, whatever
/// event ended the race.
pub proof fn lemma_settled_identity_free(m: Map<Seq<char>, bool>, id: Seq<char>)
    ensures
        !m.remove(id).dom().contains(id),
{
}

/// A driven request leaves no trace: publishing at a free identity and then
/// settling — with any number of cancel calls in between — returns the
/// registry to exactly the state it had before the request.
pub proof fn lemma_request_leaves_no_trace(m: Map<Seq<char>, bool>, id: Seq<char>)
    requires
        !m.dom().contains(id),
    ensures
        m.insert(id, false).remove(id) == m,
        cancel_effect(m.insert(id, false), id).remove(id) == m,
{
    assert(m.insert(id, false).remove(id) =~= m);
    assert(cancel_effect(m.insert(id, false), id).remove(id) =~= m);
}

} // verus!
