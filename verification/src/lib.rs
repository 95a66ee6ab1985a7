//! A moderation library for "focus sessions": a user commits to working
//! distraction-free for a while; the library tracks those commitments in a
//! concurrent registry, decides on every inbound message whether the message
//! violates a session (someone pinged a focused user, or a focused user spoke
//! too early), and prepares the wording of the announcements that accompany
//! session starts and removals. A small side feature stores free-text notes
//! under per-user, per-topic buckets.

pub mod announce;
pub mod enforce;
pub mod focus;
pub mod laws;
pub mod notes;
pub mod parse;
pub mod registry;
pub mod session;
pub mod text;
