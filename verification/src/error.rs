//! Errors of key decoding, code generation and code verification.
use vstd::prelude::*;
use vstd::string::StringExecFns;
use crate::text::{decimal_text, push_decimal};

verus! {

/// Any failure of the library.
#[derive(Debug)]
pub enum Error {
    Key(KeyError),
    Generation(GenerationError),
    Verification(VerificationError),
}

/// Failures while turning an age public key into key material.
#[derive(Debug)]
pub enum KeyError {
    Empty,
    InvalidPrefix(String),
    Bech32Decode(String),
    InvalidDecodedLength(usize),
}

/// Failures while producing a code.
#[derive(Debug)]
pub enum GenerationError {
    HmacFailed,
    TruncateFailed(String),
    InvalidLength(String),
    Overflow,
}

/// Failures while checking a code.
#[derive(Debug)]
pub enum VerificationError {
    Mismatch,
    Expired(u64, u64),
    InvalidFormat(String),
}

/// The mathematical value of an [`Error`]: its variant and the text it carries.
pub enum ErrorView {
    Key(KeyErrorView),
    Generation(GenerationErrorView),
    Verification(VerificationErrorView),
}

pub enum KeyErrorView {
    Empty,
    InvalidPrefix(Seq<char>),
    Bech32Decode(Seq<char>),
    InvalidDecodedLength(usize),
}

pub enum GenerationErrorView {
    HmacFailed,
    TruncateFailed(Seq<char>),
    InvalidLength(Seq<char>),
    Overflow,
}

pub enum VerificationErrorView {
    Mismatch,
    Expired(u64, u64),
    InvalidFormat(Seq<char>),
}

impl View for KeyError {
    type V = KeyErrorView;

    open spec fn view(&self) -> KeyErrorView {
        match self {
            KeyError::Empty => KeyErrorView::Empty,
            KeyError::InvalidPrefix(s) => KeyErrorView::InvalidPrefix(s@),
            KeyError::Bech32Decode(s) => KeyErrorView::Bech32Decode(s@),
            KeyError::InvalidDecodedLength(n) => KeyErrorView::InvalidDecodedLength(*n),
        }
    }
}

impl View for GenerationError {
    type V = GenerationErrorView;

    open spec fn view(&self) -> GenerationErrorView {
        match self {
            GenerationError::HmacFailed => GenerationErrorView::HmacFailed,
            GenerationError::TruncateFailed(s) => GenerationErrorView::TruncateFailed(s@),
            GenerationError::InvalidLength(s) => GenerationErrorView::InvalidLength(s@),
            GenerationError::Overflow => GenerationErrorView::Overflow,
        }
    }
}

impl View for VerificationError {
    type V = VerificationErrorView;

    open spec fn view(&self) -> VerificationErrorView {
        match self {
            VerificationError::Mismatch => VerificationErrorView::Mismatch,
            VerificationError::Expired(a, b) => VerificationErrorView::Expired(*a, *b),
            VerificationError::InvalidFormat(s) => VerificationErrorView::InvalidFormat(s@),
        }
    }
}

impl View for Error {
    type V = ErrorView;

    open spec fn view(&self) -> ErrorView {
        match self {
            Error::Key(e) => ErrorView::Key(e@),
            Error::Generation(e) => ErrorView::Generation(e@),
            Error::Verification(e) => ErrorView::Verification(e@),
        }
    }
}

/// A result whose failure is an error of this library.
pub type Result<T> = std::result::Result<T, Error>;

/// The value of a result whose success carries nothing.
pub open spec fn unit_outcome(r: Result<()>) -> std::result::Result<(), ErrorView> {
    match r {
        Ok(()) => Ok(()),
        Err(e) => Err(e@),
    }
}

/// The message shown for a key error.
pub open spec fn key_error_text(e: KeyErrorView) -> Seq<char> {
    match e {
        KeyErrorView::Empty => "Key is empty"@,
        KeyErrorView::InvalidPrefix(s) => "Invalid prefix: expected 'age1', got '"@ + s + "'"@,
        KeyErrorView::Bech32Decode(s) => "Bech32 decode failed: "@ + s,
        KeyErrorView::InvalidDecodedLength(n) => "Invalid decoded length: expected 32 bytes, got "@
            + decimal_text(n as nat),
    }
}

/// The message shown for a generation error.
pub open spec fn generation_error_text(e: GenerationErrorView) -> Seq<char> {
    match e {
        GenerationErrorView::HmacFailed => "HMAC failed"@,
        GenerationErrorView::TruncateFailed(s) => "Truncation failed: "@ + s,
        GenerationErrorView::InvalidLength(s) => "Invalid length: "@ + s,
        GenerationErrorView::Overflow => "Overflow computing born time"@,
    }
}

/// The message shown for a verification error.
pub open spec fn verification_error_text(e: VerificationErrorView) -> Seq<char> {
    match e {
        VerificationErrorView::Mismatch => "Code mismatch"@,
        VerificationErrorView::Expired(at, now) => "Expired at "@ + decimal_text(at as nat)
            + ", current "@ + decimal_text(now as nat),
        VerificationErrorView::InvalidFormat(s) => "Invalid format: "@ + s,
    }
}

/// The message shown for an error.
pub open spec fn error_text(e: ErrorView) -> Seq<char> {
    match e {
        ErrorView::Key(k) => "Key error: "@ + key_error_text(k),
        ErrorView::Generation(g) => "Generation error: "@ + generation_error_text(g),
        ErrorView::Verification(v) => "Verification error: "@ + verification_error_text(v),
    }
}

impl KeyError {
    /// The message of this error.
    pub fn to_string(&self) -> (r: String)
        ensures
            r@ == key_error_text(self@),
    {
        match self {
            KeyError::Empty => String::from_str("Key is empty"),
            KeyError::InvalidPrefix(s) => {
                let mut r = String::from_str("Invalid prefix: expected 'age1', got '");
                r.append(s.as_str());
                r.append("'");
                r
            },
            KeyError::Bech32Decode(s) => {
                let mut r = String::from_str("Bech32 decode failed: ");
                r.append(s.as_str());
                r
            },
            KeyError::InvalidDecodedLength(n) => {
                let mut r = String::from_str("Invalid decoded length: expected 32 bytes, got ");
                push_decimal(&mut r, *n as u64);
                r
            },
        }
    }
}

impl GenerationError {
    /// The message of this error.
    pub fn to_string(&self) -> (r: String)
        ensures
            r@ == generation_error_text(self@),
    {
        match self {
            GenerationError::HmacFailed => String::from_str("HMAC failed"),
            GenerationError::TruncateFailed(s) => {
                let mut r = String::from_str("Truncation failed: ");
                r.append(s.as_str());
                r
            },
            GenerationError::InvalidLength(s) => {
                let mut r = String::from_str("Invalid length: ");
                r.append(s.as_str());
                r
            },
            GenerationError::Overflow => String::from_str("Overflow computing born time"),
        }
    }
}

impl VerificationError {
    /// The message of this error.
    pub fn to_string(&self) -> (r: String)
        ensures
            r@ == verification_error_text(self@),
    {
        match self {
            VerificationError::Mismatch => String::from_str("Code mismatch"),
            VerificationError::Expired(at, now) => {
                let mut r = String::from_str("Expired at ");
                push_decimal(&mut r, *at);
                r.append(", current ");
                push_decimal(&mut r, *now);
                r
            },
            VerificationError::InvalidFormat(s) => {
                let mut r = String::from_str("Invalid format: ");
                r.append(s.as_str());
                r
            },
        }
    }
}

impl Error {
    /// The message of this error.
    pub fn to_string(&self) -> (r: String)
        ensures
            r@ == error_text(self@),
    {
        match self {
            Error::Key(e) => {
                let mut r = String::from_str("Key error: ");
                let inner = e.to_string();
                r.append(inner.as_str());
                r
            },
            Error::Generation(e) => {
                let mut r = String::from_str("Generation error: ");
                let inner = e.to_string();
                r.append(inner.as_str());
                r
            },
            Error::Verification(e) => {
                let mut r = String::from_str("Verification error: ");
                let inner = e.to_string();
                r.append(inner.as_str());
                r
            },
        }
    }
}

} // verus!
