//! The manager: the single owner of all poll state and of the subscription
//! registry.
//!
//! The unverified driver drains one mailbox and hands each message to
//! [`Manager::process`] — a total function from the current state and one
//! message to the next state, the reply, and the exact pushes owed to
//! subscribers. Because nothing else ever touches the state, whatever order
//! the mailbox serializes concurrent callers into is the order the
//! transitions happen in, and every subscriber live at a mutation observes
//! its value before the mutating caller's reply.

use vstd::prelude::*;

use crate::message::{Message, Output};
use crate::poll::{
    Poll, PollSummary, PollView, Uuid, apply_vote, bump, candidate_id, contains_id, index_of_id,
    ids_unique, lemma_id_pigeonhole, lookup, overview_of, polls_wf, public_overviews, totals_of,
    vote_ok, zero_votes,
};
use crate::subscriptions::{
    Push, PushView, SubId, Subscriptions, SubsView, overview_pushes, token_unused, totals_pushes,
    votes_pushes, without_poll_subs, without_subs,
};

verus! {

/// Spec model of the whole actor state: the polls in creation order, and
/// the registry.
pub struct ManagerView {
    pub polls: Seq<PollView>,
    pub subs: SubsView,
}

/// The poll a creation request inserts: the given fields, one zeroed
/// counter per option.
pub open spec fn created_poll(
    id: Uuid,
    name: Seq<char>,
    description: Seq<char>,
    private: bool,
    options: Seq<Seq<char>>,
) -> PollView {
    PollView { id, name, description, private, options, votes: zero_votes(options.len()) }
}

/// What a creation step guarantees: a poll under a fresh id is appended,
/// nothing else changes, and the pushes are the fresh overview map for
/// every overview subscriber followed by the fresh totals map for every
/// totals subscriber.
pub open spec fn create_post(
    pre: ManagerView,
    post: ManagerView,
    id: Uuid,
    name: Seq<char>,
    description: Seq<char>,
    private: bool,
    options: Seq<Seq<char>>,
    pushes: Seq<PushView>,
) -> bool {
    &&& !contains_id(pre.polls, id)
    &&& post.polls == pre.polls.push(created_poll(id, name, description, private, options))
    &&& post.subs == pre.subs
    &&& pushes == overview_pushes(pre.subs.overview, public_overviews(post.polls))
        + totals_pushes(pre.subs.poll_total, totals_of(post.polls))
    &&& polls_wf(post.polls)
    &&& ids_unique(post.polls)
}

/// What a vote step guarantees: the vote is counted exactly when the poll
/// exists, the option index is in range and the counter has headroom; on
/// success the pushes are the new vote vector for every subscriber of that
/// poll followed by the fresh totals map for every totals subscriber; on
/// failure nothing changes and nothing is pushed.
pub open spec fn vote_post(
    pre: ManagerView,
    post: ManagerView,
    id: Uuid,
    option: int,
    ok: bool,
    pushes: Seq<PushView>,
) -> bool {
    &&& ok == vote_ok(pre.polls, id, option)
    &&& post.polls == apply_vote(pre.polls, id, option)
    &&& post.subs == pre.subs
    &&& ok ==> pushes == votes_pushes(pre.subs.poll, id, lookup(post.polls, id)->Some_0.votes)
        + totals_pushes(pre.subs.poll_total, totals_of(post.polls))
    &&& !ok ==> pushes == Seq::<PushView>::empty() && post == pre
    &&& polls_wf(post.polls)
}

/// What registering a per-poll subscription guarantees: for a known poll a
/// fresh token is stored for that poll's id and handed back with the poll's
/// current vote vector — the exact vector a query at the same mailbox
/// position observes; for an unknown poll (or an exhausted token space)
/// nothing changes and nothing is registered.
pub open spec fn register_poll_post(
    pre: ManagerView,
    post: ManagerView,
    id: Uuid,
    r: Option<(SubId, Vec<usize>)>,
) -> bool {
    &&& post.polls == pre.polls
    &&& if contains_id(pre.polls, id) && pre.subs.next < u64::MAX {
        &&& r matches Some(rv)
        &&& rv.0 == SubId(pre.subs.next)
        &&& token_unused(pre.subs, rv.0)
        &&& rv.1@ == lookup(pre.polls, id)->Some_0.votes
        &&& post.subs == (SubsView {
            poll: pre.subs.poll.push((id, rv.0)),
            next: (pre.subs.next + 1) as u64,
            ..pre.subs
        })
    } else {
        r is None && post == pre
    }
}

/// What registering a totals subscription guarantees: a fresh token is
/// stored and handed back with the current totals map; only an exhausted
/// token space refuses.
pub open spec fn register_totals_post(
    pre: ManagerView,
    post: ManagerView,
    r: Option<(SubId, Vec<(Uuid, u128)>)>,
) -> bool {
    &&& post.polls == pre.polls
    &&& if pre.subs.next < u64::MAX {
        &&& r matches Some(rv)
        &&& rv.0 == SubId(pre.subs.next)
        &&& token_unused(pre.subs, rv.0)
        &&& rv.1@ == totals_of(pre.polls)
        &&& post.subs == (SubsView {
            poll_total: pre.subs.poll_total.push(rv.0),
            next: (pre.subs.next + 1) as u64,
            ..pre.subs
        })
    } else {
        r is None && post == pre
    }
}

/// What registering an overview subscription guarantees: a fresh token is
/// stored and handed back with the current overview map (public polls
/// only); only an exhausted token space refuses.
pub open spec fn register_overview_post(
    pre: ManagerView,
    post: ManagerView,
    r: Option<(SubId, Vec<PollSummary>)>,
) -> bool {
    &&& post.polls == pre.polls
    &&& if pre.subs.next < u64::MAX {
        &&& r matches Some(rv)
        &&& rv.0 == SubId(pre.subs.next)
        &&& token_unused(pre.subs, rv.0)
        &&& rv.1.deep_view() == public_overviews(pre.polls)
        &&& post.subs == (SubsView {
            overview: pre.subs.overview.push(rv.0),
            next: (pre.subs.next + 1) as u64,
            ..pre.subs
        })
    } else {
        r is None && post == pre
    }
}

/// What a query for one poll guarantees: a summary exactly for a known id,
/// and that summary is the poll's projection.
pub open spec fn get_summary_post(v: ManagerView, id: Uuid, r: Option<PollSummary>) -> bool {
    &&& r is Some <==> contains_id(v.polls, id)
    &&& r matches Some(s) ==> s@ == overview_of(lookup(v.polls, id)->Some_0)
}

/// The manager. All mutation and querying goes through its methods, one
/// message at a time.
pub struct Manager {
    polls: Vec<Poll>,
    subscriptions: Subscriptions,
}

impl View for Manager {
    type V = ManagerView;

    closed spec fn view(&self) -> ManagerView {
        ManagerView { polls: self.polls.deep_view(), subs: self.subscriptions@ }
    }
}

impl Default for Manager {
    /// A manager with no polls and no subscribers.
    fn default() -> (m: Manager)
        ensures
            m@.polls == Seq::<PollView>::empty(),
            m@.subs == (SubsView {
                poll: Seq::<(Uuid, SubId)>::empty(),
                poll_total: Seq::<SubId>::empty(),
                overview: Seq::<SubId>::empty(),
                next: 0u64,
            }),
    {
        let m = Manager { polls: Vec::new(), subscriptions: Subscriptions::default() };
        proof {
            assert(m@.polls =~= Seq::<PollView>::empty());
        }
        m
    }
}

impl Manager {
    /// Every poll has one counter per option, and no two polls share an id.
    #[verifier::type_invariant]
    spec fn inv(self) -> bool {
        polls_wf(self.polls.deep_view()) && ids_unique(self.polls.deep_view())
    }

    /// The position of the poll with the id, or nothing when no poll
    /// carries it.
    fn find_poll_index(&self, id: Uuid) -> (r: Option<usize>)
        ensures
            r matches Some(i) ==> (i as int) < self@.polls.len() && self@.polls[i as int].id
                == id && i as int == index_of_id(self@.polls, id),
            r is None ==> !contains_id(self@.polls, id),
    {
        proof {
            use_type_invariant(self);
        }
        let mut i: usize = 0;
        while i < self.polls.len()
            invariant
                i <= self@.polls.len(),
                self@.polls.len() == self.polls@.len(),
                ids_unique(self@.polls),
                forall|j: int| 0 <= j < i ==> (#[trigger] self@.polls[j]).id != id,
            decreases self@.polls.len() - i,
        {
            if self.polls[i].id == id {
                proof {
                    assert(self@.polls[i as int].id == id);
                    let k = index_of_id(self@.polls, id);
                    assert(0 <= k < self@.polls.len() && self@.polls[k].id == id);
                    assert(k == i as int);
                }
                return Some(i);
            }
            proof {
                assert(self@.polls[i as int].id != id);
            }
            i = i + 1;
        }
        None
    }

    /// Get the summary for a specific poll.
    pub fn get_summary(&self, id: Uuid) -> (r: Option<PollSummary>)
        ensures
            get_summary_post(self@, id, r),
    {
        match self.find_poll_index(id) {
            Some(i) => Some(self.polls[i].summary()),
            None => None,
        }
    }

    /// Get the summaries of all public polls, in creation order. A poll
    /// created private never appears.
    pub fn get_summaries(&self) -> (r: Vec<PollSummary>)
        ensures
            r.deep_view() == public_overviews(self@.polls),
    {
        Subscriptions::poll_overviews(&self.polls)
    }

    /// An id no current poll carries: the random draw when it is unused
    /// (the overwhelmingly common case), otherwise the first unused small
    /// integer — among `len + 1` candidates at least one is free.
    fn fresh_id(&self) -> (id: Uuid)
        ensures
            !contains_id(self@.polls, id),
    {
        proof {
            use_type_invariant(self);
        }
        let id = Uuid::new_v4();
        if self.find_poll_index(id).is_none() {
            return id;
        }
        let n = self.polls.len();
        let mut c: usize = 0;
        loop
            invariant
                c <= n,
                n == self@.polls.len(),
                ids_unique(self@.polls),
                forall|j: int| 0 <= j < c ==> contains_id(self@.polls, #[trigger] candidate_id(j)),
            decreases n - c,
        {
            let candidate = Uuid(c as u128);
            if self.find_poll_index(candidate).is_none() {
                return candidate;
            }
            proof {
                assert(candidate == candidate_id(c as int));
                assert(contains_id(self@.polls, candidate_id(c as int)));
            }
            if c == n {
                proof {
                    assert(forall|j: int|
                        0 <= j < n + 1 ==> contains_id(self@.polls, #[trigger] candidate_id(j)));
                    lemma_id_pigeonhole(self@.polls, (n + 1) as nat);
                    assert(false);
                }
            }
            c = c + 1;
        }
    }

    /// Create a new poll: insert it under a fresh id, then fan out the new
    /// overview and totals maps. The returned pushes are owed to their
    /// subscribers before the caller's reply is delivered.
    pub fn create_poll(
        &mut self,
        name: String,
        description: String,
        private: bool,
        options: Vec<String>,
    ) -> (r: (Uuid, Vec<Push>))
        ensures
            create_post(
                old(self)@,
                final(self)@,
                r.0,
                name@,
                description@,
                private,
                options.deep_view(),
                r.1.deep_view(),
            ),
    {
        proof {
            use_type_invariant(&*self);
        }
        let id = self.fresh_id();
        let ghost pre_polls = self@.polls;
        let poll = Poll::new(id, name, description, private, options);
        let mut polls: Vec<Poll> = Vec::new();
        std::mem::swap(&mut polls, &mut self.polls);
        polls.push(poll);
        proof {
            assert(polls.deep_view() =~= pre_polls.push(
                created_poll(id, name@, description@, private, options.deep_view()),
            ));
        }
        std::mem::swap(&mut self.polls, &mut polls);

        let mut pushes = self.subscriptions.update_overview(&self.polls);
        let mut totals = self.subscriptions.update_poll_total(&self.polls);
        let ghost overview_part = pushes.deep_view();
        let ghost totals_part = totals.deep_view();
        pushes.append(&mut totals);
        proof {
            assert(pushes.deep_view() =~= overview_part + totals_part);
        }
        (id, pushes)
    }

    /// Vote for an option on a poll: the counter rises by one and the new
    /// vote vector and totals fan out exactly when the poll exists, the
    /// index is in range and the counter has headroom; otherwise nothing
    /// changes and `false` comes back. An unknown poll and a bad option
    /// index are deliberately collapsed into the same `false`.
    pub fn vote(&mut self, poll: Uuid, option: usize) -> (r: (bool, Vec<Push>))
        ensures
            vote_post(old(self)@, final(self)@, poll, option as int, r.0, r.1.deep_view()),
    {
        proof {
            use_type_invariant(&*self);
        }
        let found = self.find_poll_index(poll);
        let i = match found {
            None => {
                let none: Vec<Push> = Vec::new();
                proof {
                    assert(none.deep_view() =~= Seq::<PushView>::empty());
                }
                return (false, none);
            },
            Some(i) => i,
        };
        if option >= self.polls[i].votes.len() {
            let none: Vec<Push> = Vec::new();
            proof {
                assert(none.deep_view() =~= Seq::<PushView>::empty());
            }
            return (false, none);
        }
        let current = self.polls[i].votes[option];
        if current == usize::MAX {
            let none: Vec<Push> = Vec::new();
            proof {
                assert(none.deep_view() =~= Seq::<PushView>::empty());
            }
            return (false, none);
        }

        let ghost pre_polls = self@.polls;
        proof {
            assert(pre_polls[i as int] == self.polls@[i as int]@);
            assert(vote_ok(pre_polls, poll, option as int));
        }
        let mut polls: Vec<Poll> = Vec::new();
        std::mem::swap(&mut polls, &mut self.polls);
        polls[i].votes[option] = current + 1;
        proof {
            assert(polls@[i as int]@ == bump(pre_polls[i as int], option as int));
            assert(polls.deep_view() =~= apply_vote(pre_polls, poll, option as int)) by {
                assert(forall|k: int|
                    0 <= k < polls@.len() && k != i as int ==> polls.deep_view()[k]
                        == pre_polls[k]);
            }
        }
        std::mem::swap(&mut self.polls, &mut polls);
        proof {
            let post = self@.polls;
            assert(post == apply_vote(pre_polls, poll, option as int));
            assert forall|k: int| 0 <= k < post.len() implies (#[trigger] post[k]).id
                == pre_polls[k].id by {}
            assert(ids_unique(post));
            assert(post[i as int].id == poll);
            let k = index_of_id(post, poll);
            assert(0 <= k < post.len() && post[k].id == poll);
            assert(k == i as int);
            assert(lookup(post, poll)->Some_0 == post[i as int]);
        }

        let mut pushes = self.subscriptions.update_poll(&self.polls[i]);
        let mut totals = self.subscriptions.update_poll_total(&self.polls);
        let ghost votes_part = pushes.deep_view();
        let ghost totals_part = totals.deep_view();
        pushes.append(&mut totals);
        proof {
            assert(self.polls@[i as int]@ == self@.polls[i as int]);
            assert(pushes.deep_view() =~= votes_part + totals_part);
        }
        (true, pushes)
    }

    /// Register a vote subscription for a specific poll: for a known poll,
    /// store an entry under a fresh token and hand back the token and the
    /// poll's current vote vector — the snapshot owed to the subscriber
    /// first; for an unknown poll, register nothing.
    pub fn register_poll_subscription(&mut self, poll: Uuid) -> (r: Option<(SubId, Vec<usize>)>)
        ensures
            register_poll_post(old(self)@, final(self)@, poll, r),
    {
        proof {
            use_type_invariant(&*self);
        }
        let found = self.find_poll_index(poll);
        let i = match found {
            None => {
                return None;
            },
            Some(i) => i,
        };
        let mut subs = Subscriptions::default();
        std::mem::swap(&mut subs, &mut self.subscriptions);
        let r = subs.register_poll(&self.polls[i]);
        std::mem::swap(&mut self.subscriptions, &mut subs);
        r
    }

    /// Register a totals subscription: store a fresh token and hand it back
    /// with the current totals map — the snapshot owed to the subscriber
    /// first.
    pub fn register_poll_total_subscription(&mut self) -> (r: Option<(SubId, Vec<(Uuid, u128)>)>)
        ensures
            register_totals_post(old(self)@, final(self)@, r),
    {
        proof {
            use_type_invariant(&*self);
        }
        let mut subs = Subscriptions::default();
        std::mem::swap(&mut subs, &mut self.subscriptions);
        let r = subs.register_poll_total(&self.polls);
        std::mem::swap(&mut self.subscriptions, &mut subs);
        r
    }

    /// Register an overview subscription: store a fresh token and hand it
    /// back with the current overview map (public polls only) — the
    /// snapshot owed to the subscriber first.
    pub fn register_overview_subscription(&mut self) -> (r: Option<(SubId, Vec<PollSummary>)>)
        ensures
            register_overview_post(old(self)@, final(self)@, r),
    {
        proof {
            use_type_invariant(&*self);
        }
        let mut subs = Subscriptions::default();
        std::mem::swap(&mut subs, &mut self.subscriptions);
        let r = subs.register_overview(&self.polls);
        std::mem::swap(&mut self.subscriptions, &mut subs);
        r
    }

    /// Remove one subscriber everywhere: the driver calls this when it
    /// observes the subscriber's channel closed, or when a delivery to it
    /// fails.
    pub fn drop_subscriber(&mut self, sub: SubId)
        ensures
            final(self)@.polls == old(self)@.polls,
            final(self)@.subs.poll == without_poll_subs(old(self)@.subs.poll, sub),
            final(self)@.subs.poll_total == without_subs(old(self)@.subs.poll_total, sub),
            final(self)@.subs.overview == without_subs(old(self)@.subs.overview, sub),
            final(self)@.subs.next == old(self)@.subs.next,
    {
        proof {
            use_type_invariant(&*self);
        }
        let mut subs = Subscriptions::default();
        std::mem::swap(&mut subs, &mut self.subscriptions);
        subs.drop_subscriber(sub);
        std::mem::swap(&mut self.subscriptions, &mut subs);
    }

    /// Process one incoming message: the single step of the actor loop.
    /// The output variant always matches the message kind, and the pushes
    /// it carries are owed to their subscribers before the reply is
    /// delivered.
    pub fn process(&mut self, message: Message) -> (out: Output)
        ensures
            match message {
                Message::GetSummaries => out matches Output::Summaries { summaries }
                    && final(self)@ == old(self)@ && summaries.deep_view() == public_overviews(
                    old(self)@.polls,
                ),
                Message::Create { name, description, private, options } => out matches
                    Output::Created { id, pushes } && create_post(
                    old(self)@,
                    final(self)@,
                    id,
                    name@,
                    description@,
                    private,
                    options.deep_view(),
                    pushes.deep_view(),
                ),
                Message::GetSummary { poll } => out matches Output::Summary { summary }
                    && final(self)@ == old(self)@ && get_summary_post(old(self)@, poll, summary),
                Message::RegisterPoll { poll } => out matches Output::PollRegistered {
                    registration,
                } && register_poll_post(old(self)@, final(self)@, poll, registration),
                Message::RegisterOverview => out matches Output::OverviewRegistered {
                    registration,
                } && register_overview_post(old(self)@, final(self)@, registration),
                Message::RegisterPollTotal => out matches Output::TotalsRegistered {
                    registration,
                } && register_totals_post(old(self)@, final(self)@, registration),
                Message::Vote { poll, option } => out matches Output::Voted { ok, pushes }
                    && vote_post(
                    old(self)@,
                    final(self)@,
                    poll,
                    option as int,
                    ok,
                    pushes.deep_view(),
                ),
            },
    {
        match message {
            Message::GetSummaries => Output::Summaries { summaries: self.get_summaries() },
            Message::Create { name, description, private, options } => {
                let (id, pushes) = self.create_poll(name, description, private, options);
                Output::Created { id, pushes }
            },
            Message::GetSummary { poll } => Output::Summary { summary: self.get_summary(poll) },
            Message::RegisterPoll { poll } => Output::PollRegistered {
                registration: self.register_poll_subscription(poll),
            },
            Message::RegisterOverview => Output::OverviewRegistered {
                registration: self.register_overview_subscription(),
            },
            Message::RegisterPollTotal => Output::TotalsRegistered {
                registration: self.register_poll_total_subscription(),
            },
            Message::Vote { poll, option } => {
                let (ok, pushes) = self.vote(poll, option);
                Output::Voted { ok, pushes }
            },
        }
    }
}

} // verus!
