//! Unified error classification for a storage client.
//!
//! Every failure that the client's operations can meet, whichever subsystem it
//! comes from, is one value of [`errors::CoreError`].

pub mod errors;
pub mod render;
pub mod subsystems;
