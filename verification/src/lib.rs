//! Normalization of raw on-chain resource mutation events into flat,
//! storage-ready records keyed by transaction position: decomposition of a
//! fully-qualified resource type tag into its structural parts, and assembly
//! of one immutable record per write or delete event.

pub mod events;
pub mod external;
pub mod laws;
pub mod records;
