//! The subscription registry: three independent lists of live output
//! channels (per-poll vote vectors, aggregate totals, the public overview).
//!
//! The registry itself owns no channels: each entry is a token ([`SubId`])
//! naming one output channel held by the unverified driver. Registration
//! allocates a fresh token and returns the snapshot that must be delivered
//! first; an update returns the exact sequence of [`Push`] values to
//! deliver; a delivery that fails reports back through
//! [`Subscriptions::drop_subscriber`], which removes the entry — a late
//! failure is treated the same as a channel already observed closed.

use vstd::prelude::*;

use crate::poll::{
    Poll, PollSummary, PollView, SummaryView, Uuid, lemma_public_overviews_take_step,
    lemma_sum_votes_bound, lemma_sum_votes_take_step, public_overviews, sum_votes, totals_of,
};

verus! {

/// A subscriber token: names one output channel owned by the driver.
#[derive(Clone, Copy, Debug, PartialEq, Eq, Hash, Structural)]
pub struct SubId(pub u64);

/// Spec model of the registry: the three entry lists in registration order,
/// and the next token to hand out.
pub struct SubsView {
    pub poll: Seq<(Uuid, SubId)>,
    pub poll_total: Seq<SubId>,
    pub overview: Seq<SubId>,
    pub next: u64,
}

/// One value to deliver to one subscriber's channel.
pub enum Push {
    /// A poll's full vote vector, for one per-poll subscriber.
    Votes { sub: SubId, votes: Vec<usize> },
    /// The totals map, for one totals subscriber.
    Totals { sub: SubId, totals: Vec<(Uuid, u128)> },
    /// The overview map (public polls only), for one overview subscriber.
    Overview { sub: SubId, overviews: Vec<PollSummary> },
}

/// Spec model of a [`Push`].
pub enum PushView {
    Votes { sub: SubId, votes: Seq<usize> },
    Totals { sub: SubId, totals: Seq<(Uuid, u128)> },
    Overview { sub: SubId, overviews: Seq<SummaryView> },
}

impl DeepView for Push {
    type V = PushView;

    open spec fn deep_view(&self) -> PushView {
        match self {
            Push::Votes { sub, votes } => PushView::Votes { sub: *sub, votes: votes@ },
            Push::Totals { sub, totals } => PushView::Totals { sub: *sub, totals: totals@ },
            Push::Overview { sub, overviews } => PushView::Overview {
                sub: *sub,
                overviews: overviews.deep_view(),
            },
        }
    }
}

/// The pushes a successful vote owes the per-poll subscribers: the new vote
/// vector, once per entry registered for that poll, in registration order.
pub open spec fn votes_pushes(subs: Seq<(Uuid, SubId)>, id: Uuid, votes: Seq<usize>) -> Seq<
    PushView,
>
    decreases subs.len(),
{
    if subs.len() == 0 {
        Seq::empty()
    } else {
        let rest = votes_pushes(subs.drop_last(), id, votes);
        if subs.last().0 == id {
            rest.push(PushView::Votes { sub: subs.last().1, votes })
        } else {
            rest
        }
    }
}

/// The pushes a mutation owes the totals subscribers: the fresh totals map,
/// once per entry, in registration order.
pub open spec fn totals_pushes(subs: Seq<SubId>, totals: Seq<(Uuid, u128)>) -> Seq<PushView> {
    subs.map_values(|s: SubId| PushView::Totals { sub: s, totals })
}

/// The pushes a creation owes the overview subscribers: the fresh overview
/// map, once per entry, in registration order.
pub open spec fn overview_pushes(subs: Seq<SubId>, overviews: Seq<SummaryView>) -> Seq<PushView> {
    subs.map_values(|s: SubId| PushView::Overview { sub: s, overviews })
}

/// The per-poll entry list without one subscriber.
pub open spec fn without_poll_subs(subs: Seq<(Uuid, SubId)>, sub: SubId) -> Seq<(Uuid, SubId)>
    decreases subs.len(),
{
    if subs.len() == 0 {
        Seq::empty()
    } else {
        let rest = without_poll_subs(subs.drop_last(), sub);
        if subs.last().1 == sub {
            rest
        } else {
            rest.push(subs.last())
        }
    }
}

/// A plain entry list without one subscriber.
pub open spec fn without_subs(subs: Seq<SubId>, sub: SubId) -> Seq<SubId>
    decreases subs.len(),
{
    if subs.len() == 0 {
        Seq::empty()
    } else {
        let rest = without_subs(subs.drop_last(), sub);
        if subs.last() == sub {
            rest
        } else {
            rest.push(subs.last())
        }
    }
}

/// The token is not stored anywhere in the registry.
pub open spec fn token_unused(v: SubsView, sub: SubId) -> bool {
    &&& forall|i: int| 0 <= i < v.poll.len() ==> (#[trigger] v.poll[i]).1 != sub
    &&& forall|i: int| 0 <= i < v.poll_total.len() ==> v.poll_total[i] != sub
    &&& forall|i: int| 0 <= i < v.overview.len() ==> v.overview[i] != sub
}

/// The registry. Entries are only ever added by a registration and removed
/// by [`Subscriptions::drop_subscriber`]; tokens are never reused.
pub struct Subscriptions {
    poll: Vec<(Uuid, SubId)>,
    poll_total: Vec<SubId>,
    overview: Vec<SubId>,
    next: u64,
}

impl View for Subscriptions {
    type V = SubsView;

    closed spec fn view(&self) -> SubsView {
        SubsView {
            poll: self.poll@,
            poll_total: self.poll_total@,
            overview: self.overview@,
            next: self.next,
        }
    }
}

impl Default for Subscriptions {
    /// An empty registry.
    fn default() -> (s: Subscriptions)
        ensures
            s@ == (SubsView {
                poll: Seq::<(Uuid, SubId)>::empty(),
                poll_total: Seq::<SubId>::empty(),
                overview: Seq::<SubId>::empty(),
                next: 0u64,
            }),
    {
        Subscriptions { poll: Vec::new(), poll_total: Vec::new(), overview: Vec::new(), next: 0 }
    }
}

impl Subscriptions {
    /// Every stored token was handed out before `next`: tokens are unique
    /// and a fresh one collides with nothing.
    #[verifier::type_invariant]
    spec fn inv(self) -> bool {
        &&& forall|i: int| 0 <= i < self.poll@.len() ==> (#[trigger] self.poll@[i]).1.0 < self.next
        &&& forall|i: int|
            0 <= i < self.poll_total@.len() ==> (#[trigger] self.poll_total@[i]).0 < self.next
        &&& forall|i: int|
            0 <= i < self.overview@.len() ==> (#[trigger] self.overview@[i]).0 < self.next
    }

    /// Register a new per-poll subscription: store an entry for the poll's
    /// id under a fresh token and return the token with the snapshot (the
    /// poll's current vote vector) that must be delivered first. Fails only
    /// when the token space is exhausted.
    pub fn register_poll(&mut self, poll: &Poll) -> (r: Option<(SubId, Vec<usize>)>)
        ensures
            old(self)@.next < u64::MAX ==> ({
                &&& r matches Some(rv)
                &&& rv.0 == SubId(old(self)@.next)
                &&& token_unused(old(self)@, rv.0)
                &&& rv.1@ == poll@.votes
                &&& final(self)@.poll == old(self)@.poll.push((poll.id, rv.0))
                &&& final(self)@.poll_total == old(self)@.poll_total
                &&& final(self)@.overview == old(self)@.overview
                &&& final(self)@.next == old(self)@.next + 1
            }),
            old(self)@.next == u64::MAX ==> r is None && final(self)@ == old(self)@,
    {
        proof {
            use_type_invariant(&*self);
        }
        if self.next == u64::MAX {
            return None;
        }
        let sub = SubId(self.next);
        let mut entries: Vec<(Uuid, SubId)> = Vec::new();
        std::mem::swap(&mut entries, &mut self.poll);
        entries.push((poll.id, sub));
        self.next = self.next + 1;
        std::mem::swap(&mut self.poll, &mut entries);
        let votes = poll.votes.clone();
        proof {
            assert(votes@ =~= poll@.votes);
        }
        Some((sub, votes))
    }

    /// Register a new totals subscription: store a fresh token and return it
    /// with the snapshot (the current totals map) that must be delivered
    /// first. Fails only when the token space is exhausted.
    pub fn register_poll_total(&mut self, polls: &Vec<Poll>) -> (r: Option<(SubId, Vec<(Uuid, u128)>)>)
        ensures
            old(self)@.next < u64::MAX ==> ({
                &&& r matches Some(rv)
                &&& rv.0 == SubId(old(self)@.next)
                &&& token_unused(old(self)@, rv.0)
                &&& rv.1@ == totals_of(polls.deep_view())
                &&& final(self)@.poll == old(self)@.poll
                &&& final(self)@.poll_total == old(self)@.poll_total.push(rv.0)
                &&& final(self)@.overview == old(self)@.overview
                &&& final(self)@.next == old(self)@.next + 1
            }),
            old(self)@.next == u64::MAX ==> r is None && final(self)@ == old(self)@,
    {
        proof {
            use_type_invariant(&*self);
        }
        if self.next == u64::MAX {
            return None;
        }
        let sub = SubId(self.next);
        let mut entries: Vec<SubId> = Vec::new();
        std::mem::swap(&mut entries, &mut self.poll_total);
        entries.push(sub);
        self.next = self.next + 1;
        std::mem::swap(&mut self.poll_total, &mut entries);
        Some((sub, Self::poll_totals(polls)))
    }

    /// Register a new overview subscription: store a fresh token and return
    /// it with the snapshot (the current overview map, public polls only)
    /// that must be delivered first. Fails only when the token space is
    /// exhausted.
    pub fn register_overview(&mut self, polls: &Vec<Poll>) -> (r: Option<(SubId, Vec<PollSummary>)>)
        ensures
            old(self)@.next < u64::MAX ==> ({
                &&& r matches Some(rv)
                &&& rv.0 == SubId(old(self)@.next)
                &&& token_unused(old(self)@, rv.0)
                &&& rv.1.deep_view() == public_overviews(polls.deep_view())
                &&& final(self)@.poll == old(self)@.poll
                &&& final(self)@.poll_total == old(self)@.poll_total
                &&& final(self)@.overview == old(self)@.overview.push(rv.0)
                &&& final(self)@.next == old(self)@.next + 1
            }),
            old(self)@.next == u64::MAX ==> r is None && final(self)@ == old(self)@,
    {
        proof {
            use_type_invariant(&*self);
        }
        if self.next == u64::MAX {
            return None;
        }
        let sub = SubId(self.next);
        let mut entries: Vec<SubId> = Vec::new();
        std::mem::swap(&mut entries, &mut self.overview);
        entries.push(sub);
        self.next = self.next + 1;
        std::mem::swap(&mut self.overview, &mut entries);
        Some((sub, Self::poll_overviews(polls)))
    }

    /// The pushes a successful vote on `poll` owes the per-poll
    /// subscribers: the new vote vector, once per entry registered for that
    /// poll's id, in registration order.
    pub fn update_poll(&self, poll: &Poll) -> (r: Vec<Push>)
        ensures
            r.deep_view() == votes_pushes(self@.poll, poll@.id, poll@.votes),
    {
        let mut r: Vec<Push> = Vec::new();
        let mut i: usize = 0;
        while i < self.poll.len()
            invariant
                i <= self.poll@.len(),
                r.deep_view() =~= votes_pushes(self.poll@.take(i as int), poll@.id, poll@.votes),
            decreases self.poll@.len() - i,
        {
            let ghost pre = r.deep_view();
            let (id, sub) = self.poll[i];
            if id == poll.id {
                let votes = poll.votes.clone();
                proof {
                    assert(votes@ =~= poll@.votes);
                }
                r.push(Push::Votes { sub, votes });
                proof {
                    assert(r.deep_view() =~= pre.push(
                        PushView::Votes { sub, votes: poll@.votes },
                    ));
                }
            }
            proof {
                assert(self.poll@.take(i + 1).drop_last() =~= self.poll@.take(i as int));
                assert(self.poll@.take(i + 1).last() == self.poll@[i as int]);
            }
            i = i + 1;
        }
        proof {
            assert(self.poll@.take(self.poll@.len() as int) =~= self.poll@);
        }
        r
    }

    /// The pushes a mutation owes the totals subscribers: the fresh totals
    /// map, once per entry, in registration order.
    pub fn update_poll_total(&self, polls: &Vec<Poll>) -> (r: Vec<Push>)
        ensures
            r.deep_view() == totals_pushes(self@.poll_total, totals_of(polls.deep_view())),
    {
        let mut r: Vec<Push> = Vec::new();
        let mut i: usize = 0;
        while i < self.poll_total.len()
            invariant
                i <= self.poll_total@.len(),
                r.deep_view().len() == i,
                forall|k: int|
                    0 <= k < i ==> r.deep_view()[k] == (PushView::Totals {
                        sub: self.poll_total@[k],
                        totals: totals_of(polls.deep_view()),
                    }),
            decreases self.poll_total@.len() - i,
        {
            let ghost pre = r.deep_view();
            let sub = self.poll_total[i];
            let totals = Self::poll_totals(polls);
            r.push(Push::Totals { sub, totals });
            proof {
                assert(r.deep_view() =~= pre.push(
                    PushView::Totals { sub, totals: totals_of(polls.deep_view()) },
                ));
            }
            i = i + 1;
        }
        proof {
            assert(r.deep_view() =~= totals_pushes(
                self@.poll_total,
                totals_of(polls.deep_view()),
            ));
        }
        r
    }

    /// The pushes a creation owes the overview subscribers: the fresh
    /// overview map, once per entry, in registration order.
    pub fn update_overview(&self, polls: &Vec<Poll>) -> (r: Vec<Push>)
        ensures
            r.deep_view() == overview_pushes(self@.overview, public_overviews(polls.deep_view())),
    {
        let mut r: Vec<Push> = Vec::new();
        let mut i: usize = 0;
        while i < self.overview.len()
            invariant
                i <= self.overview@.len(),
                r.deep_view().len() == i,
                forall|k: int|
                    0 <= k < i ==> r.deep_view()[k] == (PushView::Overview {
                        sub: self.overview@[k],
                        overviews: public_overviews(polls.deep_view()),
                    }),
            decreases self.overview@.len() - i,
        {
            let ghost pre = r.deep_view();
            let sub = self.overview[i];
            let overviews = Self::poll_overviews(polls);
            r.push(Push::Overview { sub, overviews });
            proof {
                assert(r.deep_view() =~= pre.push(
                    PushView::Overview {
                        sub,
                        overviews: public_overviews(polls.deep_view()),
                    },
                ));
            }
            i = i + 1;
        }
        proof {
            assert(r.deep_view() =~= overview_pushes(
                self@.overview,
                public_overviews(polls.deep_view()),
            ));
        }
        r
    }

    /// Remove one subscriber's entries everywhere. The driver calls this
    /// when it observes the subscriber's channel closed, or when a delivery
    /// to it fails.
    pub fn drop_subscriber(&mut self, sub: SubId)
        ensures
            final(self)@.poll == without_poll_subs(old(self)@.poll, sub),
            final(self)@.poll_total == without_subs(old(self)@.poll_total, sub),
            final(self)@.overview == without_subs(old(self)@.overview, sub),
            final(self)@.next == old(self)@.next,
    {
        proof {
            use_type_invariant(&*self);
        }
        let mut poll: Vec<(Uuid, SubId)> = Vec::new();
        let mut i: usize = 0;
        while i < self.poll.len()
            invariant
                i <= self.poll@.len(),
                poll@ =~= without_poll_subs(self.poll@.take(i as int), sub),
                forall|k: int| 0 <= k < poll@.len() ==> self.poll@.contains(#[trigger] poll@[k]),
            decreases self.poll@.len() - i,
        {
            let e = self.poll[i];
            if !(e.1 == sub) {
                poll.push(e);
            }
            proof {
                assert(self.poll@.take(i + 1).drop_last() =~= self.poll@.take(i as int));
                assert(self.poll@.take(i + 1).last() == self.poll@[i as int]);
            }
            i = i + 1;
        }
        proof {
            assert(self.poll@.take(self.poll@.len() as int) =~= self.poll@);
        }
        self.poll = poll;

        let mut poll_total: Vec<SubId> = Vec::new();
        let mut j: usize = 0;
        while j < self.poll_total.len()
            invariant
                j <= self.poll_total@.len(),
                poll_total@ =~= without_subs(self.poll_total@.take(j as int), sub),
                forall|k: int|
                    0 <= k < poll_total@.len() ==> self.poll_total@.contains(
                        #[trigger] poll_total@[k],
                    ),
            decreases self.poll_total@.len() - j,
        {
            let e = self.poll_total[j];
            if !(e == sub) {
                poll_total.push(e);
            }
            proof {
                assert(self.poll_total@.take(j + 1).drop_last() =~= self.poll_total@.take(
                    j as int,
                ));
                assert(self.poll_total@.take(j + 1).last() == self.poll_total@[j as int]);
            }
            j = j + 1;
        }
        proof {
            assert(self.poll_total@.take(self.poll_total@.len() as int) =~= self.poll_total@);
        }
        self.poll_total = poll_total;

        let mut overview: Vec<SubId> = Vec::new();
        let mut k: usize = 0;
        while k < self.overview.len()
            invariant
                k <= self.overview@.len(),
                overview@ =~= without_subs(self.overview@.take(k as int), sub),
                forall|m: int|
                    0 <= m < overview@.len() ==> self.overview@.contains(#[trigger] overview@[m]),
            decreases self.overview@.len() - k,
        {
            let e = self.overview[k];
            if !(e == sub) {
                overview.push(e);
            }
            proof {
                assert(self.overview@.take(k + 1).drop_last() =~= self.overview@.take(k as int));
                assert(self.overview@.take(k + 1).last() == self.overview@[k as int]);
            }
            k = k + 1;
        }
        proof {
            assert(self.overview@.take(self.overview@.len() as int) =~= self.overview@);
        }
        self.overview = overview;
    }

    /// The totals map: each poll's id paired with the sum of its counters,
    /// in the store's order. The sum of `usize` counters always fits in
    /// `u128`, so the totals carry no overflow case.
    pub fn poll_totals(polls: &Vec<Poll>) -> (r: Vec<(Uuid, u128)>)
        ensures
            r@ == totals_of(polls.deep_view()),
    {
        let mut r: Vec<(Uuid, u128)> = Vec::new();
        let mut i: usize = 0;
        while i < polls.len()
            invariant
                i <= polls@.len(),
                r@.len() == i,
                forall|k: int|
                    0 <= k < i ==> r@[k] == (
                        polls.deep_view()[k].id,
                        sum_votes(polls.deep_view()[k].votes) as u128,
                    ),
            decreases polls@.len() - i,
        {
            let p = &polls[i];
            let ghost votes = p@.votes;
            let mut total: u128 = 0;
            let mut j: usize = 0;
            while j < p.votes.len()
                invariant
                    j <= votes.len(),
                    votes == p@.votes,
                    total as int == sum_votes(votes.take(j as int)),
                    total as int <= (j as int) * (usize::MAX as int),
                decreases votes.len() - j,
            {
                proof {
                    lemma_sum_votes_take_step(votes, j as int);
                    assert((j as int) * (usize::MAX as int) + (usize::MAX as int) == (j + 1)
                        * (usize::MAX as int)) by (nonlinear_arith);
                    assert((j + 1) * (usize::MAX as int) <= u128::MAX as int) by (nonlinear_arith)
                        requires 0 <= j, j + 1 <= usize::MAX as int, usize::MAX as int <= u64::MAX as int;
                }
                total = total + (p.votes[j] as u128);
                j = j + 1;
            }
            proof {
                assert(votes.take(votes.len() as int) =~= votes);
                lemma_sum_votes_bound(votes);
                assert(polls.deep_view()[i as int] == p.deep_view());
            }
            r.push((p.id, total));
            i = i + 1;
        }
        proof {
            assert(r@ =~= totals_of(polls.deep_view()));
        }
        r
    }

    /// The overview map: the public polls' projections, in the store's
    /// order. Private polls are left out.
    pub fn poll_overviews(polls: &Vec<Poll>) -> (r: Vec<PollSummary>)
        ensures
            r.deep_view() == public_overviews(polls.deep_view()),
    {
        let mut r: Vec<PollSummary> = Vec::new();
        let mut i: usize = 0;
        while i < polls.len()
            invariant
                i <= polls@.len(),
                r.deep_view() =~= public_overviews(polls.deep_view().take(i as int)),
            decreases polls@.len() - i,
        {
            let ghost pre = r.deep_view();
            let p = &polls[i];
            proof {
                assert(polls.deep_view()[i as int] == p.deep_view());
            }
            if !p.private {
                let s = p.summary();
                r.push(s);
                proof {
                    assert(r.deep_view() =~= pre.push(s.deep_view()));
                }
            }
            proof {
                lemma_public_overviews_take_step(polls.deep_view(), i as int);
            }
            i = i + 1;
        }
        proof {
            assert(polls.deep_view().take(polls.deep_view().len() as int) =~= polls.deep_view());
        }
        r
    }
}

} // verus!
