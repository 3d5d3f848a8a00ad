//! Versioned local cache of static game reference data.
//!
//! The library decides; it performs no I/O. [`data::manager`] resolves the
//! newest published version and compares it with the local marker,
//! [`data::store`] models the persisted layout and fixes the order in which an
//! update is written, [`data::refresh`] runs a refresh or a load as a
//! sequence of decisions over the results of outside work, and [`data`] holds
//! the resident snapshot and serves it in name order. [`ai`] holds the
//! decisions around chat-endpoint profiles.
//!
//! Everything is verified except the calls into `serde_json` in
//! [`data::json`] and the call of `str::trim` in [`ai`], whose contracts are
//! stated where they stand and taken on trust.

pub mod ai;
pub mod data;
