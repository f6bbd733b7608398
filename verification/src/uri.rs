//! BIP21 URIs with payjoin parameters: reading the `pj`, `pjos` and `ohttp`
//! parameters, deciding whether the endpoint may be used, and writing the
//! parameters back.

pub mod endpoint;
pub mod error;
pub mod key_config;
pub mod params;
pub mod state;

pub use endpoint::EndpointUrl;
pub use error::{Bip21Failure, InternalPjParseError, PjParseError};
pub use key_config::OhttpKeyConfig;
pub use params::{Payjoin, PayjoinParams};
pub use state::{DeserializationState, ParamKind};
