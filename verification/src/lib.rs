//! Verified core of an archive extraction module: the safety checks, the
//! extraction plans that say what is written where and in which order, and
//! the error messages shown when an archive is refused.

pub mod path_safety;
pub mod format;
pub mod entry;
pub mod options;
pub mod plan;
pub mod error;
pub mod message;
pub mod extract;
pub mod laws;
pub mod mtime;
pub mod order;
