//! How strongly and how quickly colors follow the screen.
use crate::domain::config::{Intensity, SyncMode};
use crate::domain::config;
use crate::number;
use crate::text;
use vstd::prelude::*;
use vstd::std_specs::cmp::PartialEqSpecImpl;

verus! {

/// Why colors cannot be processed.
#[derive(Clone, Copy, Debug, PartialEq, Eq, Structural)]
pub enum ProcessorError {
    DuplicateChannel(u16),
    InvalidPreset,
}

impl ProcessorError {
    /// The text that describes the error.
    pub open spec fn message_text(self) -> Seq<char> {
        match self {
            ProcessorError::DuplicateChannel(id) => "channel id "@ + text::decimal_text(id as nat)
                + " appears more than once"@,
            ProcessorError::InvalidPreset => {
                "pipeline preset contains a non-finite or out-of-range value"@
            },
        }
    }

    /// Describes the error.
    pub fn message(&self) -> (r: String)
        ensures
            r@ == self.message_text(),
    {
        match self {
            ProcessorError::DuplicateChannel(id) => text::concat3(
                "channel id ",
                text::decimal(*id as u64).as_str(),
                " appears more than once",
            ),
            ProcessorError::InvalidPreset => {
                "pipeline preset contains a non-finite or out-of-range value".to_owned()
            },
        }
    }
}

/// The values that steer the processing of colors; all but the radius are
/// single-precision bit patterns.
#[derive(Clone, Copy, Debug)]
pub struct PipelinePreset {
    /// Exposure compensation in stops.
    pub exposure: u32,
    /// Values at or below this linear-light level become black.
    pub black_cutoff: u32,
    /// Square sampling radius in pixels.
    pub sample_radius: u32,
    /// Per-frame interpolation for increasing components, from zero to one.
    pub attack: u32,
    /// Per-frame interpolation for decreasing components, from zero to one.
    pub release: u32,
}

impl PartialEq for PipelinePreset {
    fn eq(&self, other: &Self) -> (r: bool) {
        number::singles_equal(self.exposure, other.exposure) && number::singles_equal(
            self.black_cutoff,
            other.black_cutoff,
        ) && self.sample_radius == other.sample_radius && number::singles_equal(
            self.attack,
            other.attack,
        ) && number::singles_equal(self.release, other.release)
    }
}

impl PartialEqSpecImpl for PipelinePreset {
    open spec fn obeys_eq_spec() -> bool {
        true
    }

    open spec fn eq_spec(&self, other: &Self) -> bool {
        &&& number::same_single(self.exposure, other.exposure)
        &&& number::same_single(self.black_cutoff, other.black_cutoff)
        &&& self.sample_radius == other.sample_radius
        &&& number::same_single(self.attack, other.attack)
        &&& number::same_single(self.release, other.release)
    }
}

/// Whether a single-precision bit pattern stands for a finite number.
pub open spec fn is_finite(bits: u32) -> bool {
    bits % 0x8000_0000 < 0x7f80_0000
}

/// The exposure of a mode and an intensity: the sum of 0, 0.15, 0.3 or -0.1 for
/// the mode and -0.25, 0, 0.2 or 0.4 for the intensity.
pub open spec fn exposure_spec(mode: SyncMode, intensity: Intensity) -> u32 {
    match mode {
        SyncMode::Video => match intensity {
            Intensity::Subtle => 0xbe80_0000,
            Intensity::Moderate => 0,
            Intensity::High => 0x3e4c_cccd,
            Intensity::Extreme => 0x3ecc_cccd,
        },
        SyncMode::Game => match intensity {
            Intensity::Subtle => 0xbdcc_cccc,
            Intensity::Moderate => 0x3e19_999a,
            Intensity::High => 0x3eb3_3334,
            Intensity::Extreme => 0x3f0c_cccd,
        },
        SyncMode::Music => match intensity {
            Intensity::Subtle => 0x3d4c_ccd0,
            Intensity::Moderate => 0x3e99_999a,
            Intensity::High => 0x3f00_0000,
            Intensity::Extreme => 0x3f33_3334,
        },
        SyncMode::Scene => match intensity {
            Intensity::Subtle => 0xbeb3_3333,
            Intensity::Moderate => 0xbdcc_cccd,
            Intensity::High => 0x3dcc_cccd,
            Intensity::Extreme => 0x3e99_999a,
        },
    }
}

fn exposure(mode: SyncMode, intensity: Intensity) -> (r: u32)
    ensures
        r == exposure_spec(mode, intensity),
{
    match mode {
        SyncMode::Video => match intensity {
            Intensity::Subtle => 0xbe80_0000,
            Intensity::Moderate => 0,
            Intensity::High => 0x3e4c_cccd,
            Intensity::Extreme => 0x3ecc_cccd,
        },
        SyncMode::Game => match intensity {
            Intensity::Subtle => 0xbdcc_cccc,
            Intensity::Moderate => 0x3e19_999a,
            Intensity::High => 0x3eb3_3334,
            Intensity::Extreme => 0x3f0c_cccd,
        },
        SyncMode::Music => match intensity {
            Intensity::Subtle => 0x3d4c_ccd0,
            Intensity::Moderate => 0x3e99_999a,
            Intensity::High => 0x3f00_0000,
            Intensity::Extreme => 0x3f33_3334,
        },
        SyncMode::Scene => match intensity {
            Intensity::Subtle => 0xbeb3_3333,
            Intensity::Moderate => 0xbdcc_cccd,
            Intensity::High => 0x3dcc_cccd,
            Intensity::Extreme => 0x3e99_999a,
        },
    }
}

/// The black level of a mode: 0.006, 0.003, 0.01 or 0.008.
pub open spec fn black_cutoff_spec(mode: SyncMode) -> u32 {
    match mode {
        SyncMode::Video => 0x3bc4_9ba6,
        SyncMode::Game => 0x3b44_9ba6,
        SyncMode::Music => 0x3c23_d70a,
        SyncMode::Scene => 0x3c03_126f,
    }
}

fn black_cutoff(mode: SyncMode) -> (r: u32)
    ensures
        r == black_cutoff_spec(mode),
{
    match mode {
        SyncMode::Video => 0x3bc4_9ba6,
        SyncMode::Game => 0x3b44_9ba6,
        SyncMode::Music => 0x3c23_d70a,
        SyncMode::Scene => 0x3c03_126f,
    }
}

/// The sampling radius of a mode.
pub open spec fn base_radius_spec(mode: SyncMode) -> u32 {
    match mode {
        SyncMode::Video => 2,
        SyncMode::Game => 1,
        SyncMode::Music => 3,
        SyncMode::Scene => 4,
    }
}

fn base_radius(mode: SyncMode) -> (r: u32)
    ensures
        r == base_radius_spec(mode),
{
    match mode {
        SyncMode::Video => 2,
        SyncMode::Game => 1,
        SyncMode::Music => 3,
        SyncMode::Scene => 4,
    }
}

/// The attack of a mode and an intensity: 0.36, 0.6, 0.84 or 1 in games, and 0.28,
/// 0.48, 0.72 or 1 elsewhere.
pub open spec fn attack_spec(mode: SyncMode, intensity: Intensity) -> u32 {
    match mode {
        SyncMode::Game => match intensity {
            Intensity::Subtle => 0x3eb8_51ec,
            Intensity::Moderate => 0x3f19_999a,
            Intensity::High => 0x3f57_0a3d,
            Intensity::Extreme => 0x3f80_0000,
        },
        _ => match intensity {
            Intensity::Subtle => 0x3e8f_5c29,
            Intensity::Moderate => 0x3ef5_c28f,
            Intensity::High => 0x3f38_51ec,
            Intensity::Extreme => 0x3f80_0000,
        },
    }
}

fn attack(mode: SyncMode, intensity: Intensity) -> (r: u32)
    ensures
        r == attack_spec(mode, intensity),
{
    match mode {
        SyncMode::Game => match intensity {
            Intensity::Subtle => 0x3eb8_51ec,
            Intensity::Moderate => 0x3f19_999a,
            Intensity::High => 0x3f57_0a3d,
            Intensity::Extreme => 0x3f80_0000,
        },
        _ => match intensity {
            Intensity::Subtle => 0x3e8f_5c29,
            Intensity::Moderate => 0x3ef5_c28f,
            Intensity::High => 0x3f38_51ec,
            Intensity::Extreme => 0x3f80_0000,
        },
    }
}

/// The release of a mode and an intensity: 0.18, 0.3, 0.45 or 0.65 in games, and
/// 0.12, 0.2, 0.34 or 0.52 elsewhere.
pub open spec fn release_spec(mode: SyncMode, intensity: Intensity) -> u32 {
    match mode {
        SyncMode::Game => match intensity {
            Intensity::Subtle => 0x3e38_51ec,
            Intensity::Moderate => 0x3e99_999a,
            Intensity::High => 0x3ee6_6666,
            Intensity::Extreme => 0x3f26_6666,
        },
        _ => match intensity {
            Intensity::Subtle => 0x3df5_c28f,
            Intensity::Moderate => 0x3e4c_cccd,
            Intensity::High => 0x3eae_147b,
            Intensity::Extreme => 0x3f05_1eb8,
        },
    }
}

fn release(mode: SyncMode, intensity: Intensity) -> (r: u32)
    ensures
        r == release_spec(mode, intensity),
{
    match mode {
        SyncMode::Game => match intensity {
            Intensity::Subtle => 0x3e38_51ec,
            Intensity::Moderate => 0x3e99_999a,
            Intensity::High => 0x3ee6_6666,
            Intensity::Extreme => 0x3f26_6666,
        },
        _ => match intensity {
            Intensity::Subtle => 0x3df5_c28f,
            Intensity::Moderate => 0x3e4c_cccd,
            Intensity::High => 0x3eae_147b,
            Intensity::Extreme => 0x3f05_1eb8,
        },
    }
}

/// What an intensity adds to the sampling radius.
pub open spec fn radius_delta_spec(intensity: Intensity) -> u32 {
    match intensity {
        Intensity::Subtle => 2,
        Intensity::Moderate => 1,
        Intensity::High => 0,
        Intensity::Extreme => 0,
    }
}

fn radius_delta(intensity: Intensity) -> (r: u32)
    ensures
        r == radius_delta_spec(intensity),
{
    match intensity {
        Intensity::Subtle => 2,
        Intensity::Moderate => 1,
        Intensity::High => 0,
        Intensity::Extreme => 0,
    }
}

/// The values for a mode and an intensity.
pub open spec fn preset_for(mode: SyncMode, intensity: Intensity) -> PipelinePreset {
    PipelinePreset {
        exposure: exposure_spec(mode, intensity),
        black_cutoff: black_cutoff_spec(mode),
        sample_radius: (base_radius_spec(mode) + radius_delta_spec(intensity)) as u32,
        attack: attack_spec(mode, intensity),
        release: release_spec(mode, intensity),
    }
}

/// Whether the values can be used.
pub open spec fn valid_preset(preset: PipelinePreset) -> bool {
    &&& is_finite(preset.exposure)
    &&& config::is_unit(preset.black_cutoff)
    &&& config::is_unit(preset.attack)
    &&& config::is_unit(preset.release)
}

impl PipelinePreset {
    /// The values for a mode and an intensity.
    pub fn for_mode(mode: SyncMode, intensity: Intensity) -> (r: Self)
        ensures
            r == preset_for(mode, intensity),
    {
        PipelinePreset {
            exposure: exposure(mode, intensity),
            black_cutoff: black_cutoff(mode),
            sample_radius: base_radius(mode) + radius_delta(intensity),
            attack: attack(mode, intensity),
            release: release(mode, intensity),
        }
    }

    /// Refuses values that cannot be used.
    pub fn validate(self) -> (r: Result<Self, ProcessorError>)
        ensures
            valid_preset(self) ==> r == Ok::<Self, ProcessorError>(self),
            !valid_preset(self) ==> r == Err::<Self, ProcessorError>(ProcessorError::InvalidPreset),
    {
        if self.exposure % 0x8000_0000 >= 0x7f80_0000 || !unit(self.black_cutoff) || !unit(
            self.attack,
        ) || !unit(self.release) {
            return Err(ProcessorError::InvalidPreset);
        }
        Ok(self)
    }
}

fn unit(bits: u32) -> (r: bool)
    ensures
        r == config::is_unit(bits),
{
    bits <= config::ONE_BITS || bits == config::NEGATIVE_ZERO_BITS
}

/// The values for every mode and intensity can be used.
pub proof fn law_mode_presets_are_valid(mode: SyncMode, intensity: Intensity)
    ensures
        valid_preset(preset_for(mode, intensity)),
{
}

/// At every intensity, games are sampled in a smaller area and with a higher
/// exposure than videos.
pub proof fn law_games_are_sampled_closer_and_brighter(intensity: Intensity)
    ensures
        preset_for(SyncMode::Game, intensity).sample_radius < preset_for(
            SyncMode::Video,
            intensity,
        ).sample_radius,
        number::rank(preset_for(SyncMode::Game, intensity).exposure) > number::rank(
            preset_for(SyncMode::Video, intensity).exposure,
        ),
{
}

/// At every intensity, games are smoothed faster than videos: neither the attack nor
/// the release is slower, and one of them is faster.
pub proof fn law_games_smooth_faster(intensity: Intensity)
    ensures
        ({
            let game = preset_for(SyncMode::Game, intensity);
            let video = preset_for(SyncMode::Video, intensity);
            &&& number::rank(game.attack) >= number::rank(video.attack)
            &&& number::rank(game.release) >= number::rank(video.release)
            &&& number::rank(game.attack) > number::rank(video.attack) || number::rank(game.release)
                > number::rank(video.release)
        }),
{
}

} // verus!
