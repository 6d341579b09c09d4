//! An unattended repository synchroniser: it finds working copies with
//! uncommitted changes, commits them under a fixed message and publishes the
//! commit, one repository after another, on a fixed interval.
pub mod batch;
pub mod config;
pub mod error;
pub mod status;
pub mod repo;
pub mod schedule;
pub mod sync;
