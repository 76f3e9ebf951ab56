//! Time-based one-time codes derived from age public keys: the seed is HKDF-SHA256 of the
//! bech32-decoded key, and each code is a dynamic truncation of HMAC-SHA256 of the time step.
pub mod clock;
pub mod engine;
pub mod error;
pub mod ffi;
pub mod laws;
pub mod prelude;
pub mod primitives;
pub mod text;
pub mod types;

pub use age_setup::build_keypair;
pub use age_setup::PublicKey;
pub use clock::now_ts;
pub use engine::OtpEngine;
pub use error::{Error, GenerationError, KeyError, Result, VerificationError};
pub use types::{
    compute_hmac, ct_eq, truncate, validate_code_len, validate_skew_steps,
    validate_step_secs, Charset, OtpCode, OtpSeed, MAX_CODE_LEN, MAX_SKEW_STEPS, MAX_STEP_SECS,
    MIN_CODE_LEN, MIN_STEP_SECS, SEED_LEN,
};
