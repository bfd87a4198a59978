//! Boundary layer of a proof-of-replication and proof-of-spacetime library:
//! decodes the caller's buffers, asks the proof library, and reports the
//! outcome as a response value.

pub mod api;
pub mod helpers;
pub mod responses;
pub mod types;
