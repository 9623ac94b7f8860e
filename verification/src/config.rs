//! Configuration types for the synthesis pipeline.
//!
//! The verified pipeline holds every tunable as a plain integer.  Ratios that
//! hosts usually express as fractions (temperature, nucleus threshold, speed,
//! frame rate) are stored in fixed point: a `_milli` field holds thousandths,
//! so a temperature of `700` thousandths stands for seven tenths.

use vstd::prelude::*;
use vstd::string::StringExecFns;

use crate::error::digit_char;
use crate::error::spec_decimal;
use crate::error::u32_to_decimal;

verus! {

/// A fixed-point thousandths value rendered as a decimal fraction: the whole
/// part, and the fractional digits with trailing zeros trimmed.
pub open spec fn spec_milli(m: nat) -> Seq<char> {
    let whole = spec_decimal(m / 1000);
    let f = m % 1000;
    if f == 0 {
        whole
    } else if f % 100 == 0 {
        whole + "."@ + seq![digit_char((f / 100) as int)]
    } else if f % 10 == 0 {
        whole + "."@ + seq![digit_char((f / 100) as int), digit_char(((f / 10) % 10) as int)]
    } else {
        whole + "."@ + seq![
            digit_char((f / 100) as int),
            digit_char(((f / 10) % 10) as int),
            digit_char((f % 10) as int),
        ]
    }
}

/// Render a fixed-point thousandths value as a decimal fraction.
pub fn milli_to_decimal(m: u32) -> (s: String)
    ensures
        s@ == spec_milli(m as nat),
{
    let whole = u32_to_decimal(m / 1000);
    let f = m % 1000;
    if f == 0 {
        whole
    } else {
        let with_dot = whole.concat(".");
        proof {
            reveal_strlit(".");
        }
        let d1 = crate::error::digit_string(f / 100);
        if f % 100 == 0 {
            let s = with_dot.concat(d1.as_str());
            proof {
                assert(s@ =~= spec_milli(m as nat));
            }
            s
        } else {
            let d2 = crate::error::digit_string((f / 10) % 10);
            if f % 10 == 0 {
                let s = with_dot.concat(d1.as_str()).concat(d2.as_str());
                proof {
                    assert(s@ =~= spec_milli(m as nat));
                }
                s
            } else {
                let d3 = crate::error::digit_string(f % 10);
                let s = with_dot.concat(d1.as_str()).concat(d2.as_str()).concat(d3.as_str());
                proof {
                    assert(s@ =~= spec_milli(m as nat));
                }
                s
            }
        }
    }
}

/// Voice information.
#[derive(Debug, Clone)]
pub struct VoiceInfo {
    pub index: u32,
    pub name: String,
    pub gender: String,
    pub description: String,
}

/// TTS synthesis configuration.
///
/// All range-bounded fields are fixed point (thousandths) or plain integers;
/// see the module documentation.
#[derive(Debug, Clone, Copy, PartialEq, Eq, Structural)]
pub struct TTSConfig {
    /// Voice index (0-7 for built-in voices).
    pub voice_index: u32,
    /// Sampling temperature in thousandths (0-1000 stands for 0.0-1.0).
    /// Lower = more deterministic, higher = more creative.
    pub temperature_milli: u32,
    /// Nucleus sampling threshold in thousandths (100-1000 stands for 0.1-1.0).
    pub top_p_milli: u32,
    /// Speech speed multiplier in thousandths (500-2000 stands for 0.5-2.0).
    pub speed_milli: u32,
    /// Number of consistency steps (1-4).  Higher = better quality, slower.
    pub consistency_steps: u32,
    /// Use a fixed seed for reproducibility.
    pub use_fixed_seed: bool,
    /// Random seed (if `use_fixed_seed` is set).
    pub seed: u32,
}

impl Default for TTSConfig {
    /// The default configuration: the first built-in voice with balanced
    /// quality settings.
    fn default() -> (c: TTSConfig)
        ensures
            c == TTSConfig::default_spec(),
    {
        TTSConfig {
            voice_index: 0,
            temperature_milli: 700,
            top_p_milli: 900,
            speed_milli: 1000,
            consistency_steps: 2,
            use_fixed_seed: false,
            seed: 42,
        }
    }
}

impl TTSConfig {
    /// The default configuration value.
    pub open spec fn default_spec() -> TTSConfig {
        TTSConfig {
            voice_index: 0,
            temperature_milli: 700,
            top_p_milli: 900,
            speed_milli: 1000,
            consistency_steps: 2,
            use_fixed_seed: false,
            seed: 42,
        }
    }

    /// Every field lies in its declared range.
    pub open spec fn valid(self) -> bool {
        &&& self.voice_index <= 7
        &&& self.temperature_milli <= 1000
        &&& 100 <= self.top_p_milli <= 1000
        &&& 500 <= self.speed_milli <= 2000
        &&& 1 <= self.consistency_steps <= 4
    }

    /// What `validate` returns: the first out-of-range field, in declaration
    /// order, decides the message.
    pub open spec fn spec_validate(self) -> Result<(), Seq<char>> {
        if self.voice_index > 7 {
            Err("Voice index must be 0-7, got "@ + spec_decimal(self.voice_index as nat))
        } else if self.temperature_milli > 1000 {
            Err("Temperature must be 0.0-1.0, got "@ + spec_milli(self.temperature_milli as nat))
        } else if self.top_p_milli < 100 || self.top_p_milli > 1000 {
            Err("Top-P must be 0.1-1.0, got "@ + spec_milli(self.top_p_milli as nat))
        } else if self.speed_milli < 500 || self.speed_milli > 2000 {
            Err("Speed must be 0.5-2.0, got "@ + spec_milli(self.speed_milli as nat))
        } else if self.consistency_steps < 1 || self.consistency_steps > 4 {
            Err("Consistency steps must be 1-4, got "@ + spec_decimal(self.consistency_steps as nat))
        } else {
            Ok(())
        }
    }

    /// Create a low-latency configuration.
    pub fn low_latency() -> (c: TTSConfig)
        ensures
            c == (TTSConfig { consistency_steps: 1, ..TTSConfig::default_spec() }),
    {
        TTSConfig {
            consistency_steps: 1,
            ..TTSConfig::default()
        }
    }

    /// Create a high-quality configuration.
    pub fn high_quality() -> (c: TTSConfig)
        ensures
            c == (TTSConfig {
                consistency_steps: 4,
                temperature_milli: 500,
                ..TTSConfig::default_spec()
            }),
    {
        TTSConfig {
            consistency_steps: 4,
            temperature_milli: 500,
            ..TTSConfig::default()
        }
    }

    /// Validate configuration values.
    ///
    /// Succeeds exactly on configurations whose fields are all in range; a
    /// failure reports the first out-of-range field.
    pub fn validate(&self) -> (r: Result<(), String>)
        ensures
            r.is_ok() <==> self.valid(),
            r.is_ok() <==> self.spec_validate().is_ok(),
            r is Err ==> r->Err_0@ == self.spec_validate()->Err_0,
    {
        if self.voice_index > 7 {
            Err(String::from_str("Voice index must be 0-7, got ").concat(
                u32_to_decimal(self.voice_index).as_str(),
            ))
        } else if self.temperature_milli > 1000 {
            Err(String::from_str("Temperature must be 0.0-1.0, got ").concat(
                milli_to_decimal(self.temperature_milli).as_str(),
            ))
        } else if self.top_p_milli < 100 || self.top_p_milli > 1000 {
            Err(String::from_str("Top-P must be 0.1-1.0, got ").concat(
                milli_to_decimal(self.top_p_milli).as_str(),
            ))
        } else if self.speed_milli < 500 || self.speed_milli > 2000 {
            Err(String::from_str("Speed must be 0.5-2.0, got ").concat(
                milli_to_decimal(self.speed_milli).as_str(),
            ))
        } else if self.consistency_steps < 1 || self.consistency_steps > 4 {
            Err(String::from_str("Consistency steps must be 1-4, got ").concat(
                u32_to_decimal(self.consistency_steps).as_str(),
            ))
        } else {
            Ok(())
        }
    }
}

/// Law: validation succeeds on every in-range configuration, and when a field
/// is out of range while the fields checked before it are in range, the error
/// message opens with that field's name.
pub proof fn lemma_validate_names_fields(c: TTSConfig)
    ensures
        c.valid() ==> c.spec_validate() is Ok,
        !c.valid() ==> c.spec_validate() is Err,
        c.voice_index > 7 ==> c.spec_validate()->Err_0.take(11) == "Voice index"@,
        c.voice_index <= 7 && c.temperature_milli > 1000 ==> c.spec_validate()->Err_0.take(11)
            == "Temperature"@,
        c.voice_index <= 7 && c.temperature_milli <= 1000 && !(100 <= c.top_p_milli <= 1000)
            ==> c.spec_validate()->Err_0.take(5) == "Top-P"@,
        c.voice_index <= 7 && c.temperature_milli <= 1000 && 100 <= c.top_p_milli <= 1000 && !(500
            <= c.speed_milli <= 2000) ==> c.spec_validate()->Err_0.take(5) == "Speed"@,
        c.voice_index <= 7 && c.temperature_milli <= 1000 && 100 <= c.top_p_milli <= 1000 && 500
            <= c.speed_milli <= 2000 && !(1 <= c.consistency_steps <= 4)
            ==> c.spec_validate()->Err_0.take(17) == "Consistency steps"@,
{
    reveal_strlit("Voice index");
    reveal_strlit("Voice index must be 0-7, got ");
    reveal_strlit("Temperature");
    reveal_strlit("Temperature must be 0.0-1.0, got ");
    reveal_strlit("Top-P");
    reveal_strlit("Top-P must be 0.1-1.0, got ");
    reveal_strlit("Speed");
    reveal_strlit("Speed must be 0.5-2.0, got ");
    reveal_strlit("Consistency steps");
    reveal_strlit("Consistency steps must be 1-4, got ");
    if c.voice_index > 7 {
        assert(c.spec_validate()->Err_0.take(11) =~= "Voice index"@);
    } else if c.temperature_milli > 1000 {
        assert(c.spec_validate()->Err_0.take(11) =~= "Temperature"@);
    } else if !(100 <= c.top_p_milli <= 1000) {
        assert(c.spec_validate()->Err_0.take(5) =~= "Top-P"@);
    } else if !(500 <= c.speed_milli <= 2000) {
        assert(c.spec_validate()->Err_0.take(5) =~= "Speed"@);
    } else if !(1 <= c.consistency_steps <= 4) {
        assert(c.spec_validate()->Err_0.take(17) =~= "Consistency steps"@);
    }
}

/// Model configuration loaded from a manifest.
#[derive(Debug, Clone)]
pub struct ModelManifest {
    pub version: String,
    pub model_id: String,
    pub license: String,
    pub parameters: u64,
    pub sample_rate: u32,
    /// Latent frames per second, in thousandths (12500 stands for 12.5).
    pub frame_rate_milli: u32,
    pub hidden_size: u32,
    pub num_layers: u32,
    pub num_heads: u32,
    pub vocab_size: u32,
}

impl Default for ModelManifest {
    /// The reference model's manifest.
    fn default() -> (m: ModelManifest)
        ensures
            m.version@ == "1.0.2"@,
            m.model_id@ == "kyutai/pocket-tts"@,
            m.license@ == "CC-BY-4.0"@,
            m.parameters == 117856642u64,
            m.sample_rate == 24000u32,
            m.frame_rate_milli == 12500u32,
            m.hidden_size == 1024u32,
            m.num_layers == 6u32,
            m.num_heads == 16u32,
            m.vocab_size == 32000u32,
    {
        ModelManifest {
            version: String::from_str("1.0.2"),
            model_id: String::from_str("kyutai/pocket-tts"),
            license: String::from_str("CC-BY-4.0"),
            parameters: 117856642,
            sample_rate: 24000,
            frame_rate_milli: 12500,
            hidden_size: 1024,
            num_layers: 6,
            num_heads: 16,
            vocab_size: 32000,
        }
    }
}

} // verus!
