//! Self-update for a command-line tool: which releases exist and how they
//! rank, which asset fits the running platform, how the executable is taken
//! out of the downloaded archive, and in which steps it replaces the running
//! binary. Beside it stands the tracker of a usage limit.
//!
//! The library computes; it reads no file and opens no connection. What a
//! caller has read or fetched is handed in as plain values.

pub mod archive;
pub mod asset;
pub mod error;
pub mod limit_tracker;
pub mod listing;
pub mod mock;
pub mod release;
pub mod replace;
pub mod source;
pub mod target;
pub mod text;
pub mod time;
pub mod version;

pub use error::UpdateError;
