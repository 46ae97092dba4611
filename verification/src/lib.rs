//! The state of the chat channels that a bot serves, and the rules by which it asks its
//! owner to approve a tool call.
//!
//! [`discord`] and [`slack`] hold one channel each: its state, the request for approval
//! that it posts, and the laws of both. [`approval`] is what they share, and [`pending`]
//! keeps the requests that wait for an answer.

pub mod approval;
pub mod discord;
pub mod pending;
pub mod slack;
