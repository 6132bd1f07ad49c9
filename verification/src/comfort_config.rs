//! The settings of the two noise fields.
//!
//! The three real-valued settings are carried as the bit patterns of
//! IEEE-754 binary32 numbers, as noise samples are.

use crate::noise::INFINITY_BITS;
use vstd::prelude::*;

verus! {

/// The parameters of one fractal noise field.
#[derive(Clone, Copy, Debug, PartialEq, Eq, Structural)]
pub struct FractalSettings {
    /// Number of layers of noise.
    pub octaves: i32,
    /// Pattern of the factor by which each layer's amplitude shrinks.
    pub gain: u32,
    /// Pattern of the factor by which each layer's frequency grows.
    pub lacunarity: u32,
    /// Pattern of the frequency of the first layer.
    pub frequency: u32,
}

/// The settings of both noise fields.
#[derive(Clone, Copy, Debug, PartialEq, Eq, Structural)]
pub struct ComfortConfig {
    pub terrainperlin: FractalSettings,
    pub treeperlin: FractalSettings,
}

/// Why the settings of a noise field could not be had: the name stands for
/// no set of settings, or the first setting of the named set that is out of
/// range.
#[derive(Clone, Copy, Debug, PartialEq, Eq, Structural)]
pub enum SettingsError {
    /// The configuration defines no set of settings under the name.
    UnknownPreset,
    /// The number of octaves is not positive.
    Octaves,
    /// The gain is not a positive number.
    Gain,
    /// The lacunarity is not a positive number.
    Lacunarity,
    /// The frequency is not a positive number.
    Frequency,
}

/// The pattern encodes a finite number above zero.
pub open spec fn is_positive_number(bits: u32) -> bool {
    0 < bits < INFINITY_BITS
}

impl FractalSettings {
    /// The first setting that is out of range, if there is one.
    pub open spec fn fault(self) -> Option<SettingsError> {
        if self.octaves <= 0 {
            Some(SettingsError::Octaves)
        } else if !is_positive_number(self.gain) {
            Some(SettingsError::Gain)
        } else if !is_positive_number(self.lacunarity) {
            Some(SettingsError::Lacunarity)
        } else if !is_positive_number(self.frequency) {
            Some(SettingsError::Frequency)
        } else {
            None
        }
    }

    /// Checks the settings: at least one octave, and a positive finite gain,
    /// lacunarity and frequency.
    pub fn check(&self) -> (checked: Result<(), SettingsError>)
        ensures
            checked == (match self.fault() {
                Some(e) => Err::<(), SettingsError>(e),
                None => Ok::<(), SettingsError>(()),
            }),
    {
        if self.octaves <= 0 {
            Err(SettingsError::Octaves)
        } else if !(0 < self.gain && self.gain < INFINITY_BITS) {
            Err(SettingsError::Gain)
        } else if !(0 < self.lacunarity && self.lacunarity < INFINITY_BITS) {
            Err(SettingsError::Lacunarity)
        } else if !(0 < self.frequency && self.frequency < INFINITY_BITS) {
            Err(SettingsError::Frequency)
        } else {
            Ok(())
        }
    }
}

impl ComfortConfig {
    /// The settings that go by the name `preset`: those of the terrain noise
    /// for `terrainperlin`, those of the tree noise for `treeperlin`, and none
    /// for every other name.
    pub open spec fn preset(self, preset: Seq<char>) -> Option<FractalSettings> {
        if preset == "terrainperlin"@ {
            Some(self.terrainperlin)
        } else if preset == "treeperlin"@ {
            Some(self.treeperlin)
        } else {
            None
        }
    }

    /// What asking for the settings named `preset` gives: the named set when
    /// every setting of it is in range, the first fault of the named set
    /// otherwise, and `UnknownPreset` for a name that stands for no set.  No
    /// other set is ever given in place of the one asked for.
    pub open spec fn answer(self, preset: Seq<char>) -> Result<FractalSettings, SettingsError> {
        match self.preset(preset) {
            Some(settings) => match settings.fault() {
                Some(e) => Err(e),
                None => Ok(settings),
            },
            None => Err(SettingsError::UnknownPreset),
        }
    }
}

/// Picks the settings that go by the name `preset` out of `config` and
/// checks them.  A name that stands for no set of settings is an error, as is
/// a named set with a setting out of range.
pub fn load_settings(config: &ComfortConfig, preset: &str) -> (settings: Result<
    FractalSettings,
    SettingsError,
>)
    ensures
        settings == config.answer(preset@),
{
    let given: String = preset.to_owned();
    let terrain: String = "terrainperlin".to_owned();
    let tree: String = "treeperlin".to_owned();
    let picked = if given == terrain {
        config.terrainperlin
    } else if given == tree {
        config.treeperlin
    } else {
        return Err(SettingsError::UnknownPreset);
    };
    match picked.check() {
        Ok(()) => Ok(picked),
        Err(e) => Err(e),
    }
}

} // verus!
