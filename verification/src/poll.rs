//! Polls and their public projections.
//!
//! A poll pairs an ordered list of option labels with one vote counter per
//! option; a `PollSummary` is the public, counter-free projection handed to
//! clients. The spec-level models (`PollView`, `SummaryView`) carry the same
//! data over `Seq`, and the transition functions on whole poll lists
//! (`apply_vote`, `public_overviews`, `totals_of`) are the vocabulary every
//! contract in this crate speaks.

use vstd::prelude::*;

verus! {

/// A poll identifier: 128 bits, globally unique within one store, drawn from
/// a version-4 UUID when a poll is created.
#[derive(Clone, Copy, Debug, PartialEq, Eq, Structural)]
pub struct Uuid(pub u128);

/// Spec model of one poll: the same fields as [`Poll`], over `Seq`.
pub struct PollView {
    pub id: Uuid,
    pub name: Seq<char>,
    pub description: Seq<char>,
    pub private: bool,
    pub options: Seq<Seq<char>>,
    pub votes: Seq<usize>,
}

/// Spec model of one summary: a [`PollView`] without the private flag and
/// without the vote counters.
pub struct SummaryView {
    pub id: Uuid,
    pub name: Seq<char>,
    pub description: Seq<char>,
    pub options: Seq<Seq<char>>,
}

/// One poll: identity, descriptive text, a visibility flag, the ordered
/// option labels and one vote counter per option.
#[derive(Clone, Debug)]
pub struct Poll {
    pub id: Uuid,
    pub name: String,
    pub description: String,
    pub private: bool,
    pub options: Vec<String>,
    pub votes: Vec<usize>,
}

/// The public projection of a poll: everything but the visibility flag and
/// the counters.
#[derive(Clone, Debug)]
pub struct PollSummary {
    pub id: Uuid,
    pub name: String,
    pub description: String,
    pub options: Vec<String>,
}

impl View for Poll {
    type V = PollView;

    open spec fn view(&self) -> PollView {
        PollView {
            id: self.id,
            name: self.name@,
            description: self.description@,
            private: self.private,
            options: self.options.deep_view(),
            votes: self.votes@,
        }
    }
}

impl DeepView for Poll {
    type V = PollView;

    open spec fn deep_view(&self) -> PollView {
        self.view()
    }
}

impl View for PollSummary {
    type V = SummaryView;

    open spec fn view(&self) -> SummaryView {
        SummaryView {
            id: self.id,
            name: self.name@,
            description: self.description@,
            options: self.options.deep_view(),
        }
    }
}

impl DeepView for PollSummary {
    type V = SummaryView;

    open spec fn deep_view(&self) -> SummaryView {
        self.view()
    }
}

impl PollView {
    /// A poll is well formed when it has exactly one counter per option.
    pub open spec fn wf(self) -> bool {
        self.votes.len() == self.options.len()
    }
}

/// The projection that drops the private flag and the counters.
pub open spec fn overview_of(p: PollView) -> SummaryView {
    SummaryView { id: p.id, name: p.name, description: p.description, options: p.options }
}

/// A vote counter per option, all zero.
pub open spec fn zero_votes(n: nat) -> Seq<usize> {
    Seq::new(n, |i: int| 0usize)
}

/// Whether some poll in `s` carries the id.
pub open spec fn contains_id(s: Seq<PollView>, id: Uuid) -> bool {
    exists|i: int| 0 <= i < s.len() && s[i].id == id
}

/// The position of the poll with the id (meaningful under `contains_id`; the
/// store keeps ids unique, so the position is the only one).
pub open spec fn index_of_id(s: Seq<PollView>, id: Uuid) -> int {
    choose|i: int| 0 <= i < s.len() && s[i].id == id
}

/// The poll with the id, if any.
pub open spec fn lookup(s: Seq<PollView>, id: Uuid) -> Option<PollView> {
    if contains_id(s, id) {
        Some(s[index_of_id(s, id)])
    } else {
        None
    }
}

/// No two polls share an id.
pub open spec fn ids_unique(s: Seq<PollView>) -> bool {
    forall|i: int, j: int| 0 <= i < j < s.len() ==> s[i].id != s[j].id
}

/// Every poll has one counter per option.
pub open spec fn polls_wf(s: Seq<PollView>) -> bool {
    forall|i: int| 0 <= i < s.len() ==> (#[trigger] s[i]).wf()
}

/// The poll with one more vote on option `opt`.
pub open spec fn bump(p: PollView, opt: int) -> PollView {
    PollView { votes: p.votes.update(opt, (p.votes[opt] + 1) as usize), ..p }
}

/// A vote is accepted exactly when the poll exists, the option index is in
/// range, and the counter still has headroom on this machine.
pub open spec fn vote_ok(s: Seq<PollView>, id: Uuid, opt: int) -> bool {
    contains_id(s, id) && {
        let p = lookup(s, id)->Some_0;
        0 <= opt < p.votes.len() && p.votes[opt] < usize::MAX
    }
}

/// The poll list after a vote: the targeted counter is one higher when the
/// vote is accepted, and nothing changes otherwise.
pub open spec fn apply_vote(s: Seq<PollView>, id: Uuid, opt: int) -> Seq<PollView> {
    if vote_ok(s, id, opt) {
        s.update(index_of_id(s, id), bump(s[index_of_id(s, id)], opt))
    } else {
        s
    }
}

/// The sum of a poll's counters.
pub open spec fn sum_votes(v: Seq<usize>) -> int
    decreases v.len(),
{
    if v.len() == 0 {
        0
    } else {
        sum_votes(v.drop_last()) + v.last()
    }
}

/// The totals map: each poll's id paired with the sum of its counters, in
/// the store's (insertion) order.
pub open spec fn totals_of(s: Seq<PollView>) -> Seq<(Uuid, u128)> {
    s.map_values(|p: PollView| (p.id, sum_votes(p.votes) as u128))
}

/// The overview map: the projections of the public polls, in the store's
/// (insertion) order. Private polls are left out.
pub open spec fn public_overviews(s: Seq<PollView>) -> Seq<SummaryView>
    decreases s.len(),
{
    if s.len() == 0 {
        Seq::empty()
    } else {
        let rest = public_overviews(s.drop_last());
        if s.last().private {
            rest
        } else {
            rest.push(overview_of(s.last()))
        }
    }
}

/// A counter sum never exceeds one `usize::MAX` per option.
pub proof fn lemma_sum_votes_bound(v: Seq<usize>)
    ensures
        0 <= sum_votes(v) <= v.len() * usize::MAX,
    decreases v.len(),
{
    if v.len() > 0 {
        lemma_sum_votes_bound(v.drop_last());
        assert((v.len() - 1) * usize::MAX + usize::MAX == v.len() * usize::MAX) by (nonlinear_arith);
    }
}

/// Extending a counter list by one element adds that element to the sum.
pub proof fn lemma_sum_votes_take_step(v: Seq<usize>, j: int)
    requires
        0 <= j < v.len(),
    ensures
        sum_votes(v.take(j + 1)) == sum_votes(v.take(j)) + v[j],
{
    assert(v.take(j + 1).drop_last() =~= v.take(j));
}

/// Extending a poll list by one poll extends the overview map by that
/// poll's projection exactly when the poll is public.
pub proof fn lemma_public_overviews_take_step(s: Seq<PollView>, j: int)
    requires
        0 <= j < s.len(),
    ensures
        public_overviews(s.take(j + 1)) == if s[j].private {
            public_overviews(s.take(j))
        } else {
            public_overviews(s.take(j)).push(overview_of(s[j]))
        },
{
    assert(s.take(j + 1).drop_last() =~= s.take(j));
    assert(s.take(j + 1).last() == s[j]);
}

/// A poll created private never appears in the overview map: no entry
/// carries its id.
pub proof fn lemma_overview_excludes_private(s: Seq<PollView>, id: Uuid)
    requires
        ids_unique(s),
        lookup(s, id) matches Some(p) && p.private,
    ensures
        forall|j: int|
            0 <= j < public_overviews(s).len() ==> (#[trigger] public_overviews(s)[j]).id != id,
    decreases s.len(),
{
    if s.len() > 0 {
        let rest = s.drop_last();
        let i = index_of_id(s, id);
        assert(0 <= i < s.len() && s[i].id == id);
        assert(forall|k: int| 0 <= k < rest.len() ==> rest[k] == s[k]);
        if i == s.len() - 1 {
            // The private poll is the last one: it contributes no entry, and
            // by uniqueness no earlier poll carries its id.
            assert(!contains_id(rest, id));
            lemma_overview_all_ids(rest);
            assert(public_overviews(s) == public_overviews(rest));
            assert forall|j: int|
                0 <= j < public_overviews(s).len() implies (#[trigger] public_overviews(
                s,
            )[j]).id != id by {
                assert(contains_id(rest, public_overviews(rest)[j].id));
            }
        } else {
            assert(rest[i].id == id);
            assert(index_of_id(rest, id) == i) by {
                let k = index_of_id(rest, id);
                assert(rest[k].id == id);
                assert(s[k].id == id && s[i].id == id);
            }
            lemma_overview_excludes_private(rest, id);
            assert forall|j: int|
                0 <= j < public_overviews(s).len() implies (#[trigger] public_overviews(
                s,
            )[j]).id != id by {
                if j < public_overviews(rest).len() {
                    assert(public_overviews(s)[j] == public_overviews(rest)[j]);
                } else {
                    // The entry added last comes from `s.last()`, whose id
                    // differs from `id` by uniqueness.
                    assert(public_overviews(s)[j] == overview_of(s.last()));
                    assert(s[s.len() - 1].id != id);
                }
            }
        }
    }
}

/// Every id in the overview map is the id of some poll in the list.
pub proof fn lemma_overview_all_ids(s: Seq<PollView>)
    ensures
        forall|j: int|
            0 <= j < public_overviews(s).len() ==> contains_id(
                s,
                (#[trigger] public_overviews(s)[j]).id,
            ),
    decreases s.len(),
{
    if s.len() > 0 {
        let rest = s.drop_last();
        lemma_overview_all_ids(rest);
        assert forall|j: int|
            0 <= j < public_overviews(s).len() implies contains_id(
            s,
            (#[trigger] public_overviews(s)[j]).id,
        ) by {
            if j < public_overviews(rest).len() {
                let id = public_overviews(rest)[j].id;
                let k = index_of_id(rest, id);
                assert(s[k].id == id);
            } else {
                assert(s[s.len() - 1].id == public_overviews(s)[j].id);
            }
        }
    }
}

/// Counters are monotonically non-decreasing: a vote, accepted or not,
/// never lowers any counter of any poll.
pub proof fn lemma_votes_monotone(s: Seq<PollView>, id: Uuid, opt: int)
    ensures
        apply_vote(s, id, opt).len() == s.len(),
        forall|k: int, j: int|
            0 <= k < s.len() && 0 <= j < s[k].votes.len() ==> #[trigger] apply_vote(
                s,
                id,
                opt,
            )[k].votes[j] >= s[k].votes[j],
{
    if vote_ok(s, id, opt) {
        let i = index_of_id(s, id);
        assert forall|k: int, j: int|
            0 <= k < s.len() && 0 <= j < s[k].votes.len() implies #[trigger] apply_vote(
            s,
            id,
            opt,
        )[k].votes[j] >= s[k].votes[j] by {
            if k == i && j == opt {
                assert(apply_vote(s, id, opt)[k].votes[j] == s[k].votes[j] + 1);
            }
        }
    }
}

/// The poll list after `n` votes in a row for the same poll and option, in
/// mailbox order.
pub open spec fn apply_votes(s: Seq<PollView>, id: Uuid, opt: int, n: nat) -> Seq<PollView>
    decreases n,
{
    if n == 0 {
        s
    } else {
        apply_vote(apply_votes(s, id, opt, (n - 1) as nat), id, opt)
    }
}

/// Sequential votes accumulate exactly: starting from any state that holds
/// the target poll and option, `n` votes in mailbox order — however many
/// racing callers they came from — raise that one counter by exactly `n`
/// (no lost update, no double count) and change nothing else.
pub proof fn lemma_votes_accumulate(s: Seq<PollView>, id: Uuid, opt: int, n: nat)
    requires
        ids_unique(s),
        contains_id(s, id),
        0 <= opt < lookup(s, id)->Some_0.votes.len(),
        lookup(s, id)->Some_0.votes[opt] + n <= usize::MAX,
    ensures
        apply_votes(s, id, opt, n) == s.update(
            index_of_id(s, id),
            (PollView {
                votes: s[index_of_id(s, id)].votes.update(
                    opt,
                    (s[index_of_id(s, id)].votes[opt] + n) as usize,
                ),
                ..s[index_of_id(s, id)]
            }),
        ),
    decreases n,
{
    let i = index_of_id(s, id);
    assert(0 <= i < s.len() && s[i].id == id);
    if n == 0 {
        assert(s.update(i, (PollView { votes: s[i].votes.update(opt, (s[i].votes[opt] + 0) as usize), ..s[i] }))
            =~= s) by {
            assert(s[i].votes.update(opt, s[i].votes[opt]) =~= s[i].votes);
        }
    } else {
        lemma_votes_accumulate(s, id, opt, (n - 1) as nat);
        let mid = apply_votes(s, id, opt, (n - 1) as nat);
        // The intermediate state still holds the poll at the same place,
        // with the counter raised by `n - 1`.
        assert(mid[i].id == id);
        assert(contains_id(mid, id));
        assert(index_of_id(mid, id) == i) by {
            let k = index_of_id(mid, id);
            assert(0 <= k < mid.len() && mid[k].id == id);
            if k != i {
                assert(s[k].id == id);
            }
        }
        assert(mid[i].votes[opt] == s[i].votes[opt] + n - 1);
        assert(vote_ok(mid, id, opt));
        assert(apply_vote(mid, id, opt) == mid.update(i, bump(mid[i], opt)));
        assert(apply_vote(mid, id, opt) =~= s.update(
            i,
            (PollView {
                votes: s[i].votes.update(opt, (s[i].votes[opt] + n) as usize),
                ..s[i]
            }),
        )) by {
            assert(bump(mid[i], opt).votes =~= s[i].votes.update(
                opt,
                (s[i].votes[opt] + n) as usize,
            ));
        }
    }
}

/// The `j`-th fallback candidate id for the allocation scan.
pub open spec fn candidate_id(j: int) -> Uuid {
    Uuid(j as u128)
}

/// Pigeonhole for id allocation: when every candidate id `0, 1, …, m-1`
/// occurs in a list of pairwise distinct ids, the list holds at least `m`
/// polls. The store's fallback scan over these candidates therefore always
/// finds an unused id among the first `len + 1` of them.
pub proof fn lemma_id_pigeonhole(s: Seq<PollView>, m: nat)
    requires
        ids_unique(s),
        m <= 0x1_0000_0000_0000_0000,
        forall|j: int| 0 <= j < m ==> contains_id(s, #[trigger] candidate_id(j)),
    ensures
        s.len() >= m,
    decreases m,
{
    if m > 0 {
        let last_id = candidate_id(m - 1);
        let i = index_of_id(s, last_id);
        assert(0 <= i < s.len() && s[i].id == last_id);
        let s2 = s.remove(i);
        s.remove_ensures(i);
        assert(ids_unique(s2)) by {
            assert forall|a: int, b: int| 0 <= a < b < s2.len() implies s2[a].id != s2[b].id by {
                let a0 = if a < i {
                    a
                } else {
                    a + 1
                };
                let b0 = if b < i {
                    b
                } else {
                    b + 1
                };
                assert(s2[a] == s[a0] && s2[b] == s[b0]);
            }
        }
        assert forall|j: int| 0 <= j < m - 1 implies contains_id(s2, #[trigger] candidate_id(j)) by {
            let k = index_of_id(s, candidate_id(j));
            assert(0 <= k < s.len() && s[k].id == candidate_id(j));
            assert(k != i);
            if k < i {
                assert(s2[k] == s[k]);
            } else {
                assert(s2[k - 1] == s[k]);
            }
        }
        lemma_id_pigeonhole(s2, (m - 1) as nat);
    }
}

impl Uuid {
    /// Relies on `uuid::Uuid::new_v4`: a freshly drawn random version-4
    /// UUID, taken as its 128-bit value. Nothing can be promised of a
    /// random draw, so the contract is empty; freshness of poll ids is
    /// established by the store itself, never assumed of the draw. The
    /// call aborts only if the operating system's randomness source fails.
    #[verifier::external_body]
    pub fn new_v4() -> Uuid {
        Uuid(uuid::Uuid::new_v4().as_u128())
    }
}

impl Poll {
    /// A new poll with the given identity and labels and one zeroed counter
    /// per option.
    pub fn new(id: Uuid, name: String, description: String, private: bool, options: Vec<String>) -> (p: Poll)
        ensures
            p@ == (PollView {
                id,
                name: name@,
                description: description@,
                private,
                options: options.deep_view(),
                votes: zero_votes(options.deep_view().len()),
            }),
            p@.wf(),
    {
        let n = options.len();
        let mut votes: Vec<usize> = Vec::new();
        while votes.len() < n
            invariant
                votes@ =~= zero_votes(votes@.len() as nat),
                votes@.len() <= n,
            decreases n - votes@.len(),
        {
            votes.push(0);
        }
        proof {
            assert(votes@ =~= zero_votes(options.deep_view().len()));
        }
        Poll { id, name, description, private, options, votes }
    }

    /// The public projection of this poll.
    pub fn summary(&self) -> (s: PollSummary)
        ensures
            s@ == overview_of(self@),
    {
        let s = PollSummary {
            id: self.id,
            name: self.name.clone(),
            description: self.description.clone(),
            options: self.options.clone(),
        };
        proof {
            assert(s.options.deep_view() =~= self.options.deep_view());
        }
        s
    }
}

} // verus!
