//! What becomes of a color in linear light before it is smoothed, and how far it is
//! smoothed.
//!
//! Components are single-precision bit patterns. They are compared here as the
//! numbers that they stand for.
use crate::domain::config;
use crate::engine::preset::PipelinePreset;
use crate::engine::processor::LinearRgb;
use crate::engine::processor;
use crate::number;
use vstd::prelude::*;

verus! {

/// A component kept from zero to one. What is no number stays as it is.
pub open spec fn clamped(bits: u32) -> u32 {
    if number::is_nan(bits) {
        bits
    } else if number::rank(bits) < 0 {
        0
    } else if number::rank(bits) > number::rank(config::ONE_BITS) {
        config::ONE_BITS
    } else {
        bits
    }
}

fn clamp(bits: u32) -> (r: u32)
    ensures
        r == clamped(bits),
{
    if number::not_a_number(bits) {
        bits
    } else if number::place(bits) < 0 {
        0
    } else if number::place(bits) > number::place(config::ONE_BITS) {
        config::ONE_BITS
    } else {
        bits
    }
}

/// Whether the greatest component of a color is at most a level. Components that
/// are no numbers are passed over; a color of nothing else has no greatest one.
pub open spec fn is_dark(color: LinearRgb, level: u32) -> bool {
    &&& !(number::is_nan(color.red) && number::is_nan(color.green) && number::is_nan(color.blue))
    &&& number::is_nan(color.red) || number::at_most(color.red, level)
    &&& number::is_nan(color.green) || number::at_most(color.green, level)
    &&& number::is_nan(color.blue) || number::at_most(color.blue, level)
}

/// A color whose components are kept from zero to one.
pub open spec fn clamped_color(color: LinearRgb) -> LinearRgb {
    LinearRgb {
        red: clamped(color.red),
        green: clamped(color.green),
        blue: clamped(color.blue),
    }
}

/// The color that an exposed color asks for: within range, and black where it is
/// too dark.
pub open spec fn target_color(exposed: LinearRgb, black_cutoff: u32) -> LinearRgb {
    if is_dark(clamped_color(exposed), black_cutoff) {
        processor::black()
    } else {
        clamped_color(exposed)
    }
}

/// How far a component goes to its target in one frame.
pub open spec fn coefficient(previous: u32, target: u32, attack: u32, release: u32) -> u32 {
    if number::at_most(previous, target) {
        attack
    } else {
        release
    }
}

fn step(previous: u32, target: u32, attack: u32, release: u32) -> (r: u32)
    ensures
        r == coefficient(previous, target, attack, release),
{
    if number::not_more(previous, target) {
        attack
    } else {
        release
    }
}

impl PipelinePreset {
    /// The color that an exposed color asks for.
    pub fn target(&self, exposed: LinearRgb) -> (r: LinearRgb)
        ensures
            r == target_color(exposed, self.black_cutoff),
    {
        let red: u32 = clamp(exposed.red);
        let green: u32 = clamp(exposed.green);
        let blue: u32 = clamp(exposed.blue);
        let nothing = number::not_a_number(red) && number::not_a_number(green) && number::not_a_number(blue);
        let dark = (number::not_a_number(red) || number::not_more(red, self.black_cutoff)) && (number::not_a_number(green)
            || number::not_more(green, self.black_cutoff)) && (number::not_a_number(blue) || number::not_more(
            blue,
            self.black_cutoff,
        ));
        if dark && !nothing {
            LinearRgb { red: 0, green: 0, blue: 0 }
        } else {
            LinearRgb { red, green, blue }
        }
    }

    /// How far each component goes to its target in one frame.
    pub fn coefficients(&self, previous: LinearRgb, target: LinearRgb) -> (r: LinearRgb)
        ensures
            r.red == coefficient(previous.red, target.red, self.attack, self.release),
            r.green == coefficient(previous.green, target.green, self.attack, self.release),
            r.blue == coefficient(previous.blue, target.blue, self.attack, self.release),
    {
        LinearRgb {
            red: step(previous.red, target.red, self.attack, self.release),
            green: step(previous.green, target.green, self.attack, self.release),
            blue: step(previous.blue, target.blue, self.attack, self.release),
        }
    }
}

/// Every component of a target is from zero to one where it is a number.
pub proof fn law_targets_are_within_range(exposed: LinearRgb, black_cutoff: u32)
    ensures
        ({
            let target = target_color(exposed, black_cutoff);
            &&& number::is_nan(target.red) || config::is_unit(target.red)
            &&& number::is_nan(target.green) || config::is_unit(target.green)
            &&& number::is_nan(target.blue) || config::is_unit(target.blue)
        }),
{
}

/// Whether every component of a color is from zero to one.
pub open spec fn within_range(color: LinearRgb) -> bool {
    config::is_unit(color.red) && config::is_unit(color.green) && config::is_unit(color.blue)
}

/// A color within range becomes black where none of its components is above the
/// cutoff, and stays as it is elsewhere.
pub proof fn law_dark_colors_become_black(color: LinearRgb, black_cutoff: u32)
    requires
        within_range(color),
        config::is_unit(black_cutoff),
    ensures
        target_color(color, black_cutoff) == if number::rank(color.red) <= number::rank(black_cutoff) && number::rank(
            color.green,
        ) <= number::rank(black_cutoff) && number::rank(color.blue) <= number::rank(black_cutoff) {
            processor::black()
        } else {
            color
        },
{
}

/// Rising components take the attack of the preset, falling components its release.
pub proof fn law_rise_takes_the_attack(previous: u32, target: u32, attack: u32, release: u32)
    requires
        config::is_unit(previous),
        config::is_unit(target),
    ensures
        number::rank(previous) < number::rank(target) ==> coefficient(previous, target, attack, release) == attack,
        number::rank(target) < number::rank(previous) ==> coefficient(previous, target, attack, release)
            == release,
{
}

} // verus!
