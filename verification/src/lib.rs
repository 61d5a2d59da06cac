//! An office-hours queue manager driven by chat-style commands.
//!
//! Users issue text commands (`!q join`, `!q leave`, ...); the library keeps
//! a FIFO queue of waiting students and lets privileged (staff) users manage
//! the queue on others' behalf. Every command yields exactly one [`reply::Reply`],
//! and the queue never holds the same identifier twice.

pub mod bot;
pub mod db;
pub mod laws;
pub mod parse;
pub mod reply;
pub mod user;
