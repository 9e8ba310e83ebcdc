//! A per-guild voice-channel presence tracker.
//!
//! The crate keeps an occupancy count for every guild, a per-guild
//! notification configuration, and a per-guild debounce gate, and decides
//! when a "someone joined" or "everyone left" notification is owed to the
//! guild's hooked text channel.  Delivery of the messages and the timer that
//! ends a debounce window are left to the caller: the processor only hands
//! out requests and takes the timer expiry back as an event.

pub mod config;
pub mod debounce;
pub mod laws;
pub mod occupancy;
pub mod processor;
