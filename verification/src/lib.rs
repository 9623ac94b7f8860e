//! On-device text-to-speech inference pipeline.
//!
//! Text is tokenized, run through an autoregressive transformer backbone with
//! rotary position encoding and incremental key/value caching, refined by a
//! multi-step consistency sampler, and decoded into waveform samples by a
//! causal convolutional upsampling stack.  A streaming layer feeds the
//! pipeline token chunks, reuses the attention caches across chunks and
//! crossfades decoder output at chunk boundaries.

pub mod audio;
pub mod config;
pub mod error;
pub mod models;
pub mod modules;
pub mod tensors;
pub mod tokenizer;

pub use config::TTSConfig;
pub use config::VoiceInfo;
pub use error::PocketTTSError;

use vstd::prelude::*;
use vstd::string::StringExecFns;

verus! {

/// Library version.
pub fn version() -> (v: String)
    ensures
        v@ == "1.0.2"@,
{
    String::from_str("1.0.2")
}

/// Audio chunk for streaming synthesis: raw little-endian sample bytes,
/// their sample rate, and whether this is the last chunk of the session.
#[derive(Debug, Clone)]
pub struct AudioChunk {
    pub audio_data: Vec<u8>,
    pub sample_rate: u32,
    pub is_final: bool,
}

/// The eight built-in voices, in index order.
pub fn available_voices() -> (voices: Vec<VoiceInfo>)
    ensures
        voices@.len() == 8,
        forall|i: int| 0 <= i < 8 ==> (#[trigger] voices@[i]).index == i,
        voices@[0].name@ == "Alba"@ && voices@[0].gender@ == "female"@,
        voices@[1].name@ == "Marius"@ && voices@[1].gender@ == "male"@,
        voices@[2].name@ == "Javert"@ && voices@[2].gender@ == "male"@,
        voices@[3].name@ == "Jean"@ && voices@[3].gender@ == "male"@,
        voices@[4].name@ == "Fantine"@ && voices@[4].gender@ == "female"@,
        voices@[5].name@ == "Cosette"@ && voices@[5].gender@ == "female"@,
        voices@[6].name@ == "Eponine"@ && voices@[6].gender@ == "female"@,
        voices@[7].name@ == "Azelma"@ && voices@[7].gender@ == "female"@,
        forall|i: int| 0 <= i < 8 ==> (#[trigger] voices@[i]).description@.len() > 0,
{
    let mut voices: Vec<VoiceInfo> = Vec::new();
    voices.push(VoiceInfo {
        index: 0,
        name: String::from_str("Alba"),
        gender: String::from_str("female"),
        description: String::from_str("Clear, neutral female voice"),
    });
    voices.push(VoiceInfo {
        index: 1,
        name: String::from_str("Marius"),
        gender: String::from_str("male"),
        description: String::from_str("Warm male voice"),
    });
    voices.push(VoiceInfo {
        index: 2,
        name: String::from_str("Javert"),
        gender: String::from_str("male"),
        description: String::from_str("Authoritative male voice"),
    });
    voices.push(VoiceInfo {
        index: 3,
        name: String::from_str("Jean"),
        gender: String::from_str("male"),
        description: String::from_str("Gentle male voice"),
    });
    voices.push(VoiceInfo {
        index: 4,
        name: String::from_str("Fantine"),
        gender: String::from_str("female"),
        description: String::from_str("Soft female voice"),
    });
    voices.push(VoiceInfo {
        index: 5,
        name: String::from_str("Cosette"),
        gender: String::from_str("female"),
        description: String::from_str("Young female voice"),
    });
    voices.push(VoiceInfo {
        index: 6,
        name: String::from_str("Eponine"),
        gender: String::from_str("female"),
        description: String::from_str("Expressive female voice"),
    });
    voices.push(VoiceInfo {
        index: 7,
        name: String::from_str("Azelma"),
        gender: String::from_str("female"),
        description: String::from_str("Bright female voice"),
    });
    proof {
        reveal_strlit("Clear, neutral female voice");
        reveal_strlit("Warm male voice");
        reveal_strlit("Authoritative male voice");
        reveal_strlit("Gentle male voice");
        reveal_strlit("Soft female voice");
        reveal_strlit("Young female voice");
        reveal_strlit("Expressive female voice");
        reveal_strlit("Bright female voice");
    }
    voices
}

} // verus!
