//! Verified core of a bridge that exposes a cryptographic provider to a
//! single-threaded host caller through a worker pool.
//!
//! - [`error`]: the internal error taxonomy and its total mapping to the
//!   error shape that the caller sees.
//! - [`value`]: the structured values that cross the boundary, and their
//!   field-by-field decoding.
//! - [`handle`]: the access discipline of a shared handle (shared holders,
//!   one exclusive holder, permanent poisoning).
//! - [`pending`]: a result placeholder that is settled exactly once.
//! - [`dispatch`]: the operation table of the domain objects, and the
//!   dispatcher that validates a call before it submits any work.
//! - [`keyspec`]: field-level checks of key and key-pair specs.
//! - [`lifecycle`]: the deletion policy of key handles.
pub mod dispatch;
pub mod error;
pub mod handle;
pub mod keyspec;
pub mod lifecycle;
pub mod pending;
pub mod value;
