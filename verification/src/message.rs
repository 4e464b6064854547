//! The abstract message protocol the actor consumes.
//!
//! A [`Message`] carries one operation's request payload; the unverified
//! driver pairs it with the reply or subscription channel it arrived with.
//! [`Output`] is everything one processing step owes the outside world: the
//! reply for the caller and the values to push to subscribers.

use vstd::prelude::*;

use crate::poll::{PollSummary, Uuid};
use crate::subscriptions::{Push, SubId};

verus! {

/// All possible message variations.
pub enum Message {
    /// List all public polls.
    GetSummaries,
    /// Create a new poll with the provided name, description, visibility
    /// and options.
    Create { name: String, description: String, private: bool, options: Vec<String> },
    /// Get the poll with the given id.
    GetSummary { poll: Uuid },
    /// Subscribe to vote changes on a given poll.
    RegisterPoll { poll: Uuid },
    /// Subscribe to an overview of all public polls.
    RegisterOverview,
    /// Subscribe to the totals of all polls.
    RegisterPollTotal,
    /// Vote on a poll.
    Vote { poll: Uuid, option: usize },
}

/// What one processing step owes the outside world. The variant always
/// matches the message kind; `pushes` lists, in order, the values owed to
/// subscribers before the reply may be delivered.
pub enum Output {
    /// Reply to [`Message::GetSummaries`].
    Summaries { summaries: Vec<PollSummary> },
    /// Reply to [`Message::Create`]: the fresh poll's id, and the pushes
    /// owed to the overview and totals subscribers.
    Created { id: Uuid, pushes: Vec<Push> },
    /// Reply to [`Message::GetSummary`].
    Summary { summary: Option<PollSummary> },
    /// Reply to [`Message::RegisterPoll`]: the fresh token and the snapshot
    /// owed to the new subscriber, or nothing when the poll is unknown.
    PollRegistered { registration: Option<(SubId, Vec<usize>)> },
    /// Reply to [`Message::RegisterOverview`]: the fresh token and the
    /// snapshot owed to the new subscriber.
    OverviewRegistered { registration: Option<(SubId, Vec<PollSummary>)> },
    /// Reply to [`Message::RegisterPollTotal`]: the fresh token and the
    /// snapshot owed to the new subscriber.
    TotalsRegistered { registration: Option<(SubId, Vec<(Uuid, u128)>)> },
    /// Reply to [`Message::Vote`]: whether the vote was counted, and the
    /// pushes owed to that poll's vote subscribers and the totals
    /// subscribers.
    Voted { ok: bool, pushes: Vec<Push> },
}

} // verus!
