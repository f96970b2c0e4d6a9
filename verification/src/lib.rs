//! A relay for live per-core CPU utilization.
//!
//! A [`sampler::Sampler`] takes one [`snapshot::Snapshot`] per tick and hands
//! it to the [`hub::Hub`], which offers it to every subscribed feed. Each
//! viewer is a [`session::Session`] that forwards what its feed shows and
//! judges a failed write with [`disconnect::classify`]. What holds of every
//! hub, whatever is called on it and in whatever order, is proved in
//! [`hub_laws`].
//!
//! Nothing here waits, sleeps or touches a socket: the caller owns the clock
//! and the connections.

pub mod disconnect;
pub mod hub;
pub mod hub_laws;
pub mod sampler;
pub mod session;
pub mod snapshot;
