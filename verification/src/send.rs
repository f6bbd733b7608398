//! The sender side of payjoin.

pub mod causes;
pub mod consensus;
pub mod error;
