//! Decision logic of a loopback icon cache: deriving the cache file name of a
//! URL, the on-disk artifact format, the lookup state machine that an I/O
//! driver runs, and the mapping of outcomes to HTTP replies.

pub mod artifact;
pub mod cache;
pub mod endpoint;
pub mod error;
pub mod key;
pub mod model;
pub mod request;
pub mod text;
