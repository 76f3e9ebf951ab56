//! The items most programs need.
pub use crate::engine::OtpEngine;
pub use crate::error::{Error, Result};
pub use crate::types::{Charset, OtpCode, OtpSeed};
pub use age_setup::build_keypair;
pub use age_setup::PublicKey;
