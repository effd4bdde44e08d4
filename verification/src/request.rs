//! The request object: identity, one-shot cancellation token, monotonic state.

use vstd::prelude::*;

verus! {

/// Lifecycle state of a request. Transitions only move forward: a request
/// starts `Pending` and ends in exactly one of the terminal states
/// `Completed` or `Cancelled`, never to be reopened.
#[derive(Clone, Copy, Debug, PartialEq, Eq, Structural)]
pub enum RequestState {
    Pending,
    Completed,
    Cancelled,
}

/// One-shot cancellation signal. It starts unset; `cancel` sets it and only
/// the first call has an effect, so cleanup attached to the first firing can
/// never run twice. There is no payload: the token is a pure signal.
pub struct CancelToken {
    cancelled: bool,
}

impl CancelToken {
    /// Whether the signal has been fired.
    pub closed spec fn is_set(self) -> bool {
        self.cancelled
    }

    /// A fresh, unset token.
    pub fn new() -> (t: Self)
        ensures
            !t.is_set(),
    {
        CancelToken { cancelled: false }
    }

    /// Fires the signal. Idempotent: the token is set afterwards no matter
    /// how often this is called, and the result tells whether this very call
    /// was the first one (the only one allowed to trigger cleanup).
    pub fn cancel(&mut self) -> (fired_now: bool)
        ensures
            final(self).is_set(),
            fired_now == !old(self).is_set(),
    {
        let was_set = self.cancelled;
        self.cancelled = true;
        !was_set
    }

    /// Observes the signal without changing it.
    pub fn is_cancelled(&self) -> (b: bool)
        ensures
            b == self.is_set(),
    {
        self.cancelled
    }
}

/// Mathematical content of a [`Request`].
pub struct RequestView {
    /// The addressable path naming the request, immutable for its lifetime.
    pub id: Seq<char>,
    /// Whether the request's cancellation token has been fired.
    pub cancel_requested: bool,
    /// The monotonic lifecycle state.
    pub state: RequestState,
}

/// One in-flight operation: the IPC-addressable entity that owns the
/// cancellation token for the operation and tracks its lifecycle state.
pub struct Request {
    identity: String,
    token: CancelToken,
    state: RequestState,
}

impl View for Request {
    type V = RequestView;

    closed spec fn view(&self) -> RequestView {
        RequestView {
            id: self.identity@,
            cancel_requested: self.token.is_set(),
            state: self.state,
        }
    }
}

impl Request {
    /// A fresh request at `identity`: pending, with an unset token.
    pub fn new(identity: String) -> (r: Self)
        ensures
            r@.id == identity@,
            !r@.cancel_requested,
            r@.state is Pending,
    {
        Request { identity, token: CancelToken::new(), state: RequestState::Pending }
    }

    /// The addressable path of this request.
    pub fn identity(&self) -> (r: &String)
        ensures
            r@ == self@.id,
    {
        &self.identity
    }

    /// The current lifecycle state.
    pub fn state(&self) -> (s: RequestState)
        ensures
            s == self@.state,
    {
        self.state
    }

    /// Whether cancellation has been requested for this request.
    pub fn cancel_requested(&self) -> (b: bool)
        ensures
            b == self@.cancel_requested,
    {
        self.token.is_cancelled()
    }

    /// Fires the request's cancellation token; identity and state are
    /// untouched. Idempotent, as the token is; the result tells whether this
    /// call fired the token first.
    pub fn cancel(&mut self) -> (fired_now: bool)
        ensures
            final(self)@.id == old(self)@.id,
            final(self)@.state == old(self)@.state,
            final(self)@.cancel_requested,
            fired_now == !old(self)@.cancel_requested,
    {
        self.token.cancel()
    }

    /// Moves a pending request into a terminal state. States are monotonic:
    /// only `Pending -> Completed` and `Pending -> Cancelled` exist, so a
    /// terminal request can never change state again.
    pub fn finish(&mut self, terminal: RequestState)
        requires
            old(self)@.state is Pending,
            !(terminal is Pending),
        ensures
            final(self)@.id == old(self)@.id,
            final(self)@.cancel_requested == old(self)@.cancel_requested,
            final(self)@.state == terminal,
    {
        self.state = terminal;
    }
}

} // verus!
