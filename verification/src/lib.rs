//! Payjoin: BIP21 payjoin parameters and the errors a payjoin sender reports.

pub mod send;
pub mod text;
pub mod uri;
pub mod uri_ext;
pub mod json;
