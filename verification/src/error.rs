//! Error types for the synthesis pipeline.

use vstd::prelude::*;
use vstd::string::StringExecFns;

verus! {

/// Errors that can occur during TTS operations.
#[derive(Debug, Clone)]
pub enum PocketTTSError {
    /// No model is currently loaded.
    ModelNotLoaded,
    /// A weight, vocabulary or voice file could not be loaded.
    ModelLoadFailed(String),
    /// The vocabulary was malformed or the input text could not be tokenized.
    TokenizationFailed(String),
    /// A numeric-array operation failed (shape mismatch, cache overflow, ...).
    InferenceFailed(String),
    /// A voice index outside the loaded voice bank was requested.
    InvalidVoice(u32),
    /// A configuration field was outside its declared range.
    InvalidConfig(String),
    /// Audio could not be encoded.
    AudioEncodingFailed(String),
    /// An input/output error reported by the host.
    IoError(String),
}

/// Decimal digits of `n`, most significant first.
pub open spec fn spec_decimal(n: nat) -> Seq<char>
    decreases n,
{
    let last = seq![digit_char((n % 10) as int)];
    if n < 10 {
        last
    } else {
        spec_decimal(n / 10) + last
    }
}

/// The character for a single decimal digit value.
pub open spec fn digit_char(d: int) -> char {
    if d == 0 { '0' }
    else if d == 1 { '1' }
    else if d == 2 { '2' }
    else if d == 3 { '3' }
    else if d == 4 { '4' }
    else if d == 5 { '5' }
    else if d == 6 { '6' }
    else if d == 7 { '7' }
    else if d == 8 { '8' }
    else { '9' }
}

pub(crate) fn digit_string(d: u32) -> (s: String)
    requires
        d < 10,
    ensures
        s@ == seq![digit_char(d as int)],
{
    let s = if d == 0 { String::from_str("0") }
    else if d == 1 { String::from_str("1") }
    else if d == 2 { String::from_str("2") }
    else if d == 3 { String::from_str("3") }
    else if d == 4 { String::from_str("4") }
    else if d == 5 { String::from_str("5") }
    else if d == 6 { String::from_str("6") }
    else if d == 7 { String::from_str("7") }
    else if d == 8 { String::from_str("8") }
    else { String::from_str("9") };
    proof {
        reveal_strlit("0");
        reveal_strlit("1");
        reveal_strlit("2");
        reveal_strlit("3");
        reveal_strlit("4");
        reveal_strlit("5");
        reveal_strlit("6");
        reveal_strlit("7");
        reveal_strlit("8");
        reveal_strlit("9");
        assert(s@ =~= seq![digit_char(d as int)]);
    }
    s
}

/// Render an unsigned integer in decimal.
pub fn u32_to_decimal(n: u32) -> (s: String)
    ensures
        s@ == spec_decimal(n as nat),
    decreases n,
{
    if n < 10 {
        digit_string(n)
    } else {
        u32_to_decimal(n / 10).concat(digit_string(n % 10).as_str())
    }
}

impl PocketTTSError {
    /// What `message` returns for each variant.
    pub open spec fn spec_message(self) -> Seq<char> {
        match self {
            PocketTTSError::ModelNotLoaded => "Model not loaded"@,
            PocketTTSError::ModelLoadFailed(s) => "Failed to load model: "@ + s@,
            PocketTTSError::TokenizationFailed(s) => "Tokenization failed: "@ + s@,
            PocketTTSError::InferenceFailed(s) => "Inference failed: "@ + s@,
            PocketTTSError::InvalidVoice(i) => "Invalid voice index: "@ + spec_decimal(i as nat),
            PocketTTSError::InvalidConfig(s) => "Invalid configuration: "@ + s@,
            PocketTTSError::AudioEncodingFailed(s) => "Audio encoding failed: "@ + s@,
            PocketTTSError::IoError(s) => "IO error: "@ + s@,
        }
    }

    /// Human-readable description of the error.
    pub fn message(&self) -> (r: String)
        ensures
            r@ == self.spec_message(),
    {
        match self {
            PocketTTSError::ModelNotLoaded => String::from_str("Model not loaded"),
            PocketTTSError::ModelLoadFailed(s) => String::from_str("Failed to load model: ").concat(s.as_str()),
            PocketTTSError::TokenizationFailed(s) => String::from_str("Tokenization failed: ").concat(s.as_str()),
            PocketTTSError::InferenceFailed(s) => String::from_str("Inference failed: ").concat(s.as_str()),
            PocketTTSError::InvalidVoice(i) => String::from_str("Invalid voice index: ").concat(u32_to_decimal(*i).as_str()),
            PocketTTSError::InvalidConfig(s) => String::from_str("Invalid configuration: ").concat(s.as_str()),
            PocketTTSError::AudioEncodingFailed(s) => String::from_str("Audio encoding failed: ").concat(s.as_str()),
            PocketTTSError::IoError(s) => String::from_str("IO error: ").concat(s.as_str()),
        }
    }
}

} // verus!
