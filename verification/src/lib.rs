//! Statistics-accounting core for a cryptocurrency mining client.
//!
//! A stream of accepted proof-of-work solutions is turned into hierarchical,
//! time-windowed hashrate and share metrics. A [`meter::Meter`] is the atomic
//! unit of accounting for one (node, category) pair; a [`stats::BasicMining`]
//! record bundles the four category meters of one logical mining node; the
//! accounting functions in [`stats`] credit every node along a leaf-to-root
//! path, honouring the containment rule between the three difficulty tiers.
//!
//! All quantities are modelled as plain integers: difficulties and kilo-hash
//! values as `u64`, cumulative share totals and rates as `u128`, timestamps
//! and interval lengths as whole seconds. The surrounding application supplies
//! clock readings and wraps nodes in whatever sharing and locking it needs;
//! everything in this crate is pure data manipulation with proved contracts.

pub mod difficulty;
pub mod time_mean;
pub mod hashes;
pub mod meter;
pub mod stats;
