//! A relay for a media-tracking activity feed: it polls the feed for
//! activities newer than a persisted watermark, turns each one into a
//! webhook message, delivers them oldest-first, and advances the watermark
//! only after the whole batch went out. Delivery is at-least-once: a crash
//! between a publish and the watermark write may repeat messages, never
//! drop them.
//!
//! The transports — the feed's HTTP API, the webhook POST, the durable
//! store behind the watermark — live outside this crate; everything the
//! relay decides or computes is here, with its contract.
pub mod activity;
pub mod config;
pub mod formatter;
pub mod hex;
pub mod message;
pub mod sync;
pub mod timefmt;
pub mod watermark;
