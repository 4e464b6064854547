//! An in-memory poll store built around a single-owner actor: one `Manager`
//! value owns every poll and every subscription entry, and an unverified
//! driver feeds it one message at a time. Each state transition is a total
//! verified function from the current state and one message to the next
//! state, the reply, and the exact sequence of values to push to live
//! subscribers.

pub mod manager;
pub mod message;
pub mod poll;
pub mod subscriptions;

pub use manager::Manager;
pub use message::Message;
pub use message::Output;
pub use poll::Poll;
pub use poll::PollSummary;
pub use poll::Uuid;
pub use subscriptions::Push;
pub use subscriptions::SubId;
pub use subscriptions::Subscriptions;
