//! The process-wide request registry: identity -> live request.
//!
//! The registry is the only shared mutable resource of the protocol. Its
//! invariant — at most one live request per identity — is what lets an
//! inbound cancel call be routed to the right token, and what lets a
//! duplicate publication be rejected instead of silently overwritten.
//! Mathematically a registry is a map from identity to one bit: whether the
//! request living there has had its cancellation token fired (every
//! registered request is still pending; terminal requests leave the map).

use vstd::prelude::*;

use crate::request::Request;

verus! {

/// Rejection of a `register` call: an entry already lives at the identity.
/// A caller-contract breach, never repaired by overwriting.
#[derive(Clone, Copy, Debug, PartialEq, Eq, Structural)]
pub struct DuplicateIdentity;

/// What an inbound cancel call does to the registry model `m`: if a request
/// is live at `id` its token becomes fired, otherwise nothing changes (a
/// stale cancel is a silent no-op).
pub open spec fn cancel_effect(m: Map<Seq<char>, bool>, id: Seq<char>) -> Map<Seq<char>, bool> {
    if m.dom().contains(id) {
        m.insert(id, true)
    } else {
        m
    }
}

/// Cancelling an identity twice has exactly the effect of cancelling it
/// once: the token is one-shot, so the second call finds it already fired.
pub proof fn lemma_cancel_idempotent(m: Map<Seq<char>, bool>, id: Seq<char>)
    ensures
        cancel_effect(cancel_effect(m, id), id) == cancel_effect(m, id),
{
    if m.dom().contains(id) {
        assert(cancel_effect(cancel_effect(m, id), id) =~= cancel_effect(m, id));
    }
}

/// A cancel call for an identity with no live request — one that already
/// terminated, or never existed — changes nothing.
pub proof fn lemma_stale_cancel_noop(m: Map<Seq<char>, bool>, id: Seq<char>)
    requires
        !m.dom().contains(id),
    ensures
        cancel_effect(m, id) == m,
{
}

/// Process-wide table of the requests currently in flight.
pub struct Registry {
    entries: Vec<Request>,
}

impl View for Registry {
    type V = Map<Seq<char>, bool>;

    /// Identity of each live request, mapped to whether its token is fired.
    closed spec fn view(&self) -> Map<Seq<char>, bool> {
        Map::new(
            |id: Seq<char>|
                exists|i: int|
                    0 <= i < self.entries@.len() && (#[trigger] self.entries@[i])@.id == id,
            |id: Seq<char>|
                self.entries@[choose|i: int|
                    0 <= i < self.entries@.len() && (#[trigger] self.entries@[i])@.id == id]@.cancel_requested,
        )
    }
}

impl Registry {
    /// The registry invariant: no two live entries share an identity, and
    /// every entry is still pending (terminal requests are removed at once).
    pub closed spec fn wf(self) -> bool {
        &&& forall|i: int, j: int|
            0 <= i < j < self.entries@.len() ==> (#[trigger] self.entries@[i])@.id != (
            #[trigger] self.entries@[j])@.id
        &&& forall|i: int|
            0 <= i < self.entries@.len() ==> (#[trigger] self.entries@[i])@.state is Pending
    }

    /// How many live entries carry identity `id`.
    pub closed spec fn live_count(self, id: Seq<char>) -> nat {
        count_matching(self.entries@, id)
    }

    /// An empty registry.
    pub fn new() -> (r: Self)
        ensures
            r.wf(),
            r@ == Map::<Seq<char>, bool>::empty(),
    {
        let r = Registry { entries: Vec::new() };
        proof {
            assert(r@ =~= Map::<Seq<char>, bool>::empty());
        }
        r
    }

    /// Position of the live entry at `id`, if one exists.
    fn find(&self, id: &String) -> (r: Option<usize>)
        ensures
            r matches Some(i) ==> i < self.entries@.len() && self.entries@[i as int]@.id == id@,
            r is None ==> forall|i: int|
                0 <= i < self.entries@.len() ==> (#[trigger] self.entries@[i])@.id != id@,
    {
        let n = self.entries.len();
        let mut i: usize = 0;
        while i < n
            invariant
                i <= n,
                n == self.entries@.len(),
                forall|j: int| 0 <= j < i ==> (#[trigger] self.entries@[j])@.id != id@,
            decreases n - i,
        {
            if *self.entries[i].identity() == *id {
                return Some(i);
            }
            i = i + 1;
        }
        None
    }

    /// The value the view assigns to the identity of entry `i`.
    proof fn lemma_view_at(&self, i: int)
        requires
            self.wf(),
            0 <= i < self.entries@.len(),
        ensures
            self@.dom().contains(self.entries@[i]@.id),
            self@[self.entries@[i]@.id] == self.entries@[i]@.cancel_requested,
    {
        let id = self.entries@[i]@.id;
        assert(self@.dom().contains(id));
        let c = choose|k: int|
            0 <= k < self.entries@.len() && (#[trigger] self.entries@[k])@.id == id;
        if c != i {
            assert(self.entries@[c]@.id == self.entries@[i]@.id);
            assert(false);
        }
    }

    /// True exactly when a live request occupies `id`.
    pub fn contains(&self, id: &String) -> (b: bool)
        requires
            self.wf(),
        ensures
            b == self@.dom().contains(id@),
    {
        match self.find(id) {
            Some(i) => {
                proof {
                    self.lemma_view_at(i as int);
                }
                true
            },
            None => false,
        }
    }

    /// Whether the request at `id` has had its token fired; `None` when no
    /// request is live there.
    pub fn is_cancelled(&self, id: &String) -> (r: Option<bool>)
        requires
            self.wf(),
        ensures
            r is Some <==> self@.dom().contains(id@),
            r matches Some(b) ==> b == self@[id@],
    {
        match self.find(id) {
            Some(i) => {
                proof {
                    self.lemma_view_at(i as int);
                }
                Some(self.entries[i].cancel_requested())
            },
            None => None,
        }
    }

    /// Publishes a pending request at its identity. Fails — and changes
    /// nothing — when the identity is already live: duplicate publication is
    /// rejected, never silently overwritten.
    pub fn register(&mut self, req: Request) -> (r: Result<(), DuplicateIdentity>)
        requires
            old(self).wf(),
            req@.state is Pending,
        ensures
            final(self).wf(),
            old(self)@.dom().contains(req@.id) ==> r is Err && *final(self) == *old(self),
            !old(self)@.dom().contains(req@.id) ==> r is Ok && final(self)@ == old(self)@.insert(
                req@.id,
                req@.cancel_requested,
            ),
    {
        match self.find(req.identity()) {
            Some(i) => {
                proof {
                    self.lemma_view_at(i as int);
                }
                Err(DuplicateIdentity)
            },
            None => {
                let ghost oldself = *self;
                self.entries.push(req);
                proof {
                    assert forall|k: Seq<char>| #[trigger]
                        self@.dom().contains(k) implies oldself@.insert(
                        req@.id,
                        req@.cancel_requested,
                    ).dom().contains(k) by {
                        let i = choose|i: int|
                            0 <= i < self.entries@.len() && (#[trigger] self.entries@[i])@.id == k;
                        if i < oldself.entries@.len() {
                            assert(oldself.entries@[i]@.id == k);
                        }
                    }
                    assert forall|k: Seq<char>| #[trigger]
                        oldself@.insert(req@.id, req@.cancel_requested).dom().contains(
                            k,
                        ) implies self@.dom().contains(k) by {
                        if k == req@.id {
                            assert(self.entries@[self.entries@.len() - 1]@.id == k);
                        } else {
                            let i = choose|i: int|
                                0 <= i < oldself.entries@.len() && (#[trigger] oldself.entries@[i])@.id
                                    == k;
                            assert(self.entries@[i]@.id == k);
                        }
                    }
                    assert forall|k: Seq<char>| self@.dom().contains(k) implies #[trigger] self@[k]
                        == oldself@.insert(req@.id, req@.cancel_requested)[k] by {
                        self.lemma_view_at(
                            choose|i: int|
                                0 <= i < self.entries@.len() && (#[trigger] self.entries@[i])@.id
                                    == k,
                        );
                        if k != req@.id {
                            let i = choose|i: int|
                                0 <= i < self.entries@.len() && (#[trigger] self.entries@[i])@.id
                                    == k;
                            assert(i < oldself.entries@.len());
                            oldself.lemma_view_at(i);
                        }
                    }
                    assert(self@ =~= oldself@.insert(req@.id, req@.cancel_requested));
                }
                Ok(())
            },
        }
    }

    /// Routes an inbound cancel call: fires the token of the request live at
    /// `id`, and does nothing when none is (the operation already terminated
    /// or never existed — a benign race, not an error). The result reports
    /// whether this call fired a token first, which is what gates any
    /// cancellation cleanup so it can never run twice.
    pub fn cancel(&mut self, id: &String) -> (fired_now: bool)
        requires
            old(self).wf(),
        ensures
            final(self).wf(),
            final(self)@ == cancel_effect(old(self)@, id@),
            fired_now == (old(self)@.dom().contains(id@) && !old(self)@[id@]),
    {
        match self.find(id) {
            Some(i) => {
                proof {
                    self.lemma_view_at(i as int);
                }
                let ghost oldself = *self;
                let mut req = self.entries.remove(i);
                let fired_now = req.cancel();
                self.entries.insert(i, req);
                proof {
                    assert(self.entries@ =~= oldself.entries@.update(i as int, req));
                    lemma_view_after_update(oldself, *self, i as int);
                    assert(self@ =~= cancel_effect(oldself@, id@));
                }
                fired_now
            },
            None => {
                proof {
                    assert(!old(self)@.dom().contains(id@));
                }
                false
            },
        }
    }

    /// Withdraws the request live at `id`, handing it back still pending;
    /// a no-op returning `None` when the identity is not live (safe to call
    /// redundantly).
    pub fn unregister(&mut self, id: &String) -> (r: Option<Request>)
        requires
            old(self).wf(),
        ensures
            final(self).wf(),
            final(self)@ == old(self)@.remove(id@),
            r is Some <==> old(self)@.dom().contains(id@),
            r matches Some(req) ==> req@.id == id@ && req@.state is Pending
                && req@.cancel_requested == old(self)@[id@],
    {
        match self.find(id) {
            Some(i) => {
                proof {
                    self.lemma_view_at(i as int);
                }
                let ghost oldself = *self;
                let req = self.entries.remove(i);
                proof {
                    lemma_view_after_removal(oldself, *self, i as int);
                    assert(self@ =~= oldself@.remove(id@));
                }
                Some(req)
            },
            None => {
                proof {
                    assert(self@ =~= old(self)@.remove(id@));
                }
                None
            },
        }
    }

    /// At most one live request occupies a given identity at any instant.
    pub proof fn lemma_at_most_one_live(self, id: Seq<char>)
        requires
            self.wf(),
        ensures
            self.live_count(id) <= 1,
    {
        lemma_count_le_one(self.entries@, id);
    }
}

/// How many requests of `s` carry identity `id`.
spec fn count_matching(s: Seq<Request>, id: Seq<char>) -> nat
    decreases s.len(),
{
    if s.len() == 0 {
        0
    } else {
        count_matching(s.drop_last(), id) + if s.last()@.id == id {
            1nat
        } else {
            0nat
        }
    }
}

proof fn lemma_count_zero(s: Seq<Request>, id: Seq<char>)
    requires
        forall|i: int| 0 <= i < s.len() ==> (#[trigger] s[i])@.id != id,
    ensures
        count_matching(s, id) == 0,
    decreases s.len(),
{
    if s.len() > 0 {
        lemma_count_zero(s.drop_last(), id);
    }
}

proof fn lemma_count_le_one(s: Seq<Request>, id: Seq<char>)
    requires
        forall|i: int, j: int| 0 <= i < j < s.len() ==> (#[trigger] s[i])@.id != (#[trigger] s[j])@.id,
    ensures
        count_matching(s, id) <= 1,
    decreases s.len(),
{
    if s.len() > 0 {
        let p = s.drop_last();
        if s.last()@.id == id {
            assert forall|i: int| 0 <= i < p.len() implies (#[trigger] p[i])@.id != id by {
                assert(s[i]@.id != s[s.len() - 1]@.id);
            }
            lemma_count_zero(p, id);
        } else {
            lemma_count_le_one(p, id);
        }
    }
}

/// After entry `i` of `pre` is replaced by one with the same identity and a
/// fired token, the view is the old view with that identity set to fired.
proof fn lemma_view_after_update(pre: Registry, post: Registry, i: int)
    requires
        pre.wf(),
        0 <= i < pre.entries@.len(),
        post.entries@.len() == pre.entries@.len(),
        forall|j: int|
            0 <= j < pre.entries@.len() && j != i ==> #[trigger] post.entries@[j]
                == pre.entries@[j],
        post.entries@[i]@.id == pre.entries@[i]@.id,
        post.entries@[i]@.state is Pending,
        post.entries@[i]@.cancel_requested,
    ensures
        post.wf(),
        post@ == pre@.insert(pre.entries@[i]@.id, true),
{
    let id = pre.entries@[i]@.id;
    assert forall|k: Seq<char>| #[trigger] post@.dom().contains(k) implies pre@.insert(
        id,
        true,
    ).dom().contains(k) by {
        let j = choose|j: int|
            0 <= j < post.entries@.len() && (#[trigger] post.entries@[j])@.id == k;
        assert(pre.entries@[j]@.id == k);
    }
    assert forall|k: Seq<char>| #[trigger]
        pre@.insert(id, true).dom().contains(k) implies post@.dom().contains(k) by {
        if k == id {
            assert(post.entries@[i]@.id == k);
        } else {
            let j = choose|j: int|
                0 <= j < pre.entries@.len() && (#[trigger] pre.entries@[j])@.id == k;
            assert(post.entries@[j]@.id == k);
        }
    }
    assert forall|k: Seq<char>| post@.dom().contains(k) implies #[trigger] post@[k] == pre@.insert(
        id,
        true,
    )[k] by {
        let j = choose|j: int|
            0 <= j < post.entries@.len() && (#[trigger] post.entries@[j])@.id == k;
        post.lemma_view_at(j);
        if k == id {
            if j != i {
                assert(pre.entries@[j]@.id == pre.entries@[i]@.id);
            }
        } else {
            assert(j != i);
            assert(pre.entries@[j]@.id == k);
            pre.lemma_view_at(j);
        }
    }
    assert(post@ =~= pre@.insert(id, true));
}

/// After entry `i` of `pre` is removed, the view is the old view without
/// that entry's identity.
proof fn lemma_view_after_removal(pre: Registry, post: Registry, i: int)
    requires
        pre.wf(),
        0 <= i < pre.entries@.len(),
        post.entries@ == pre.entries@.remove(i),
    ensures
        post.wf(),
        post@ == pre@.remove(pre.entries@[i]@.id),
{
    let id = pre.entries@[i]@.id;
    assert forall|j: int| 0 <= j < post.entries@.len() implies #[trigger] post.entries@[j] == (
    if j < i {
        pre.entries@[j]
    } else {
        pre.entries@[j + 1]
    }) by {}
    assert forall|k: Seq<char>| #[trigger] post@.dom().contains(k) implies pre@.remove(
        id,
    ).dom().contains(k) by {
        let j = choose|j: int|
            0 <= j < post.entries@.len() && (#[trigger] post.entries@[j])@.id == k;
        if j < i {
            assert(pre.entries@[j]@.id == k);
            if k == id {
                assert(pre.entries@[j]@.id == pre.entries@[i]@.id);
            }
        } else {
            assert(pre.entries@[j + 1]@.id == k);
            if k == id {
                assert(pre.entries@[j + 1]@.id == pre.entries@[i]@.id);
            }
        }
    }
    assert forall|k: Seq<char>| #[trigger]
        pre@.remove(id).dom().contains(k) implies post@.dom().contains(k) by {
        let j = choose|j: int|
            0 <= j < pre.entries@.len() && (#[trigger] pre.entries@[j])@.id == k;
        if j < i {
            assert(post.entries@[j]@.id == k);
        } else {
            assert(j != i);
            assert(post.entries@[j - 1]@.id == k);
        }
    }
    assert forall|k: Seq<char>| post@.dom().contains(k) implies #[trigger] post@[k] == pre@.remove(
        id,
    )[k] by {
        let j = choose|j: int|
            0 <= j < post.entries@.len() && (#[trigger] post.entries@[j])@.id == k;
        post.lemma_view_at(j);
        if j < i {
            assert(pre.entries@[j]@.id == k);
            if k == id {
                assert(pre.entries@[j]@.id == pre.entries@[i]@.id);
            }
            pre.lemma_view_at(j);
        } else {
            assert(pre.entries@[j + 1]@.id == k);
            if k == id {
                assert(pre.entries@[j + 1]@.id == pre.entries@[i]@.id);
            }
            pre.lemma_view_at(j + 1);
        }
    }
    assert(post@ =~= pre@.remove(id));
}

} // verus!
