//! A verified Pomodoro session planner for a chat bot.
//!
//! An inbound chat message that exactly matches the trigger string starts a
//! Pomodoro session: a fixed alternation of work periods and breaks.  The
//! library decides everything about such a session — whether a message
//! triggers one, which notification is posted at each phase boundary, how
//! long each suspension lasts, and in what order they occur — as plain data.
//! A thin unverified shell performs the actual message sends and sleeps.

pub mod text;
pub mod trigger;
pub mod session;
pub mod laws;
