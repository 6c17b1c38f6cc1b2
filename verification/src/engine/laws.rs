//! What sampling and processing colors come to, in terms of the bytes and numbers that
//! go in and out.
use crate::domain::config::{EntertainmentChannelView, Intensity, SyncMode};
use crate::engine::frame::{FrameError, FrameView, PixelFormat, SampleWindow};
use crate::engine::frame;
use crate::engine::light;
use crate::engine::preset::PipelinePreset;
use crate::engine::preset;
use crate::engine::processor::LinearRgb;
use crate::engine::processor;
use vstd::prelude::*;

verus! {

/// A column or a row lies in a window exactly where it lies in the image, no farther
/// from the center than the radius.
pub proof fn law_window_reaches_the_radius(center: int, radius: int, size: int, place: int)
    requires
        0 <= center < size,
        0 <= radius,
    ensures
        (frame::window_start(center, radius) <= place <= frame::window_end(center, radius, size))
            <==> (0 <= place < size && center - radius <= place <= center + radius),
{
}

/// A larger radius only widens a window, and two windows of one radius are as far apart
/// as their centers while neither touches an edge.
pub proof fn law_windows_grow_and_move(center: int, other: int, radius: int, larger: int, size: int)
    requires
        0 <= radius <= larger,
        larger <= center < size - larger,
        larger <= other < size - larger,
    ensures
        frame::window_start(center, larger) <= frame::window_start(center, radius),
        frame::window_end(center, radius, size) <= frame::window_end(center, larger, size),
        frame::window_end(center, radius, size) - frame::window_start(center, radius) == 2 * radius,
        frame::window_start(other, radius) - frame::window_start(center, radius) == other - center,
        frame::window_end(other, radius, size) - frame::window_end(center, radius, size) == other
            - center,
{
}

/// The pixels of a window are read row by row from its first pixel on, each once.
pub proof fn law_window_is_read_row_by_row(
    view: FrameView<'_>,
    window: SampleWindow,
    rows: nat,
    column: int,
    row: int,
)
    requires
        window.min_x <= window.max_x,
        0 <= column <= window.max_x - window.min_x,
        0 <= row < rows,
    ensures
        ({
            let across = window.max_x - window.min_x + 1;
            let read = view.window_colors(window, rows);
            &&& read.len() == rows * across
            &&& 0 <= row * across + column < read.len()
            &&& read[row * across + column] == view.color(
                window.min_x + column,
                window.min_y + row,
            )
        }),
    decreases rows,
{
    let across = window.max_x - window.min_x + 1;
    let before = view.window_colors(window, (rows - 1) as nat);
    assert(rows * across == (rows - 1) * across + across) by (nonlinear_arith);
    lemma_window_length(view, window, (rows - 1) as nat);
    if row < rows - 1 {
        law_window_is_read_row_by_row(view, window, (rows - 1) as nat, column, row);
    } else {
        assert(row * across == (rows - 1) * across);
    }
    assert(0 <= row * across) by (nonlinear_arith)
        requires
            0 <= row,
            0 <= across,
    ;
}

proof fn lemma_window_length(view: FrameView<'_>, window: SampleWindow, rows: nat)
    requires
        window.min_x <= window.max_x,
    ensures
        view.window_colors(window, rows).len() == rows * (window.max_x - window.min_x + 1),
    decreases rows,
{
    let across = window.max_x - window.min_x + 1;
    if rows > 0 {
        lemma_window_length(view, window, (rows - 1) as nat);
        assert(rows * across == (rows - 1) * across + across) by (nonlinear_arith);
    }
}

/// A pixel is the three bytes at its place, blue first in the layouts that say so. Rows
/// are counted from the top, also where the bottom row is stored first.
pub proof fn law_color_is_the_bytes_of_its_pixel(view: FrameView<'_>, x: int, y: int)
    ensures
        ({
            let wide: int = if view.layout() == PixelFormat::Rgb8 {
                3
            } else {
                4
            };
            let step = view.row_step() as int;
            let at = if step < 0 {
                (view.rows() - 1 - y) * (-step) + x * wide
            } else {
                y * step + x * wide
            };
            let color = view.color(x, y);
            let blue_first = view.layout() == PixelFormat::Bgra8 || view.layout()
                == PixelFormat::Bgrx8;
            &&& color.green == view.bytes()[at + 1]
            &&& blue_first ==> color.blue == view.bytes()[at] && color.red == view.bytes()[at + 2]
            &&& !blue_first ==> color.red == view.bytes()[at] && color.blue == view.bytes()[at + 2]
        }),
{
}

/// A frame can be sampled exactly where it has pixels, its rows do not overlap, and all
/// of its rows lie within its bytes.
pub proof fn law_frame_is_accepted_iff_its_rows_fit(
    len: nat,
    width: nat,
    height: nat,
    stride: i32,
    format: PixelFormat,
)
    requires
        len <= usize::MAX,
    ensures
        ({
            let wide: int = if format == PixelFormat::Rgb8 {
                3
            } else {
                4
            };
            let step = if stride < 0 {
                -stride
            } else {
                stride as int
            };
            frame::frame_problem(len, width, height, stride, format) is None <==> {
                &&& width > 0
                &&& height > 0
                &&& stride != i32::MIN
                &&& width * wide <= step
                &&& (height - 1) * step + width * wide <= len
            }
        }),
{
    let wide = frame::pixel_size(format) as int;
    let step = frame::stride_size(stride) as int;
    if height > 0 {
        assert((height - 1) * step >= 0) by (nonlinear_arith)
            requires
                height > 0,
                step >= 0,
        ;
    }
}

/// What becomes of a component: above one it is one, below zero it is zero, and every
/// other one stays as it is.
pub open spec fn kept_within_range(before: u32, after: u32) -> bool {
    &&& 0x3f80_0000 < before <= 0x7f80_0000 ==> after == 0x3f80_0000
    &&& 0x8000_0000 < before <= 0xff80_0000 ==> after == 0
    &&& before <= 0x3f80_0000 ==> after == before
    &&& before == 0x8000_0000 ==> after == before
    &&& 0x7f80_0000 < before < 0x8000_0000 ==> after == before
    &&& 0xff80_0000 < before ==> after == before
}

/// A color with a component above the cutoff keeps all of its components, each within
/// range by itself.
pub proof fn law_bright_colors_are_clamped(exposed: LinearRgb, black_cutoff: u32)
    requires
        black_cutoff < 0x3f80_0000,
        ({
            ||| black_cutoff < exposed.red <= 0x7f80_0000
            ||| black_cutoff < exposed.green <= 0x7f80_0000
            ||| black_cutoff < exposed.blue <= 0x7f80_0000
        }),
    ensures
        ({
            let target = light::target_color(exposed, black_cutoff);
            &&& kept_within_range(exposed.red, target.red)
            &&& kept_within_range(exposed.green, target.green)
            &&& kept_within_range(exposed.blue, target.blue)
        }),
{
}

/// A color whose components are numbers of at most the cutoff becomes black, and only
/// such a color does: any component above the cutoff stays above it.
pub proof fn law_cutoff_separates_black(exposed: LinearRgb, black_cutoff: u32)
    requires
        black_cutoff < 0x3f80_0000,
    ensures
        ({
            let target = light::target_color(exposed, black_cutoff);
            let low = |bits: u32| bits <= black_cutoff || 0x8000_0000 <= bits <= 0xff80_0000;
            &&& low(exposed.red) && low(exposed.green) && low(exposed.blue) ==> target.red == 0
                && target.green == 0 && target.blue == 0
            &&& black_cutoff < exposed.red <= 0x7f80_0000 ==> black_cutoff < target.red
                <= 0x3f80_0000
            &&& black_cutoff < exposed.green <= 0x7f80_0000 ==> black_cutoff < target.green
                <= 0x3f80_0000
            &&& black_cutoff < exposed.blue <= 0x7f80_0000 ==> black_cutoff < target.blue
                <= 0x3f80_0000
        }),
{
}

/// The components of a color are treated alike: a color with its components exchanged
/// has the target with its components exchanged.
pub proof fn law_components_are_treated_alike(exposed: LinearRgb, black_cutoff: u32)
    ensures
        ({
            let target = light::target_color(exposed, black_cutoff);
            let turned = light::target_color(
                LinearRgb { red: exposed.green, green: exposed.blue, blue: exposed.red },
                black_cutoff,
            );
            turned == (LinearRgb { red: target.green, green: target.blue, blue: target.red })
        }),
{
}

/// A component that does not fall takes the attack, and one that falls the release.
pub proof fn law_attack_unless_it_falls(previous: u32, target: u32, attack: u32, release: u32)
    requires
        previous <= 0x3f80_0000,
        target <= 0x3f80_0000,
    ensures
        previous <= target ==> light::coefficient(previous, target, attack, release) == attack,
        target < previous ==> light::coefficient(previous, target, attack, release) == release,
{
}

/// A channel goes on from the color that a frame gave it, every other channel from the
/// color that it had, and one that had none from black.
pub proof fn law_only_the_channels_of_the_area_are_renewed(
    previous: Map<u16, LinearRgb>,
    channels: Seq<EntertainmentChannelView>,
    smoothed: Seq<LinearRgb>,
    n: nat,
    id: u16,
)
    requires
        n <= channels.len(),
        smoothed.len() == channels.len(),
    ensures
        ({
            let after = processor::renewed_colors(previous, channels, smoothed, n);
            &&& (forall|i: int| 0 <= i < n ==> (#[trigger] channels[i]).id != id) ==> {
                &&& after.contains_key(id) == previous.contains_key(id)
                &&& previous.contains_key(id) ==> after[id] == previous[id]
            }
            &&& after.contains_key(id) ==> processor::starting_color(after, id) == after[id]
            &&& !after.contains_key(id) ==> processor::starting_color(after, id) == (LinearRgb {
                red: 0,
                green: 0,
                blue: 0,
            })
        }),
    decreases n,
{
    if n > 0 {
        law_only_the_channels_of_the_area_are_renewed(
            previous,
            channels,
            smoothed,
            (n - 1) as nat,
            id,
        );
        assert(channels[n - 1].id == channels[n as int - 1].id);
    }
}

/// After other channels are taken, exactly the colors of those that stay are kept, and
/// they are the same.
pub proof fn law_channels_that_stay_keep_their_colors(
    previous: Map<u16, LinearRgb>,
    channels: Seq<EntertainmentChannelView>,
    id: u16,
)
    ensures
        ({
            let kept = processor::kept_colors(previous, channels);
            &&& kept.contains_key(id) <==> previous.contains_key(id) && exists|i: int|
                0 <= i < channels.len() && (#[trigger] channels[i]).id == id
            &&& kept.contains_key(id) ==> kept[id] == previous[id]
        }),
{
}

/// Channels are accepted exactly where no two have one identifier.
pub proof fn law_channels_are_accepted_iff_they_differ(channels: Seq<EntertainmentChannelView>)
    ensures
        processor::distinct_channels(channels) <==> forall|i: int, j: int|
            0 <= i < j < channels.len() ==> (#[trigger] channels[i]).id != (
            #[trigger] channels[j]).id,
{
    if processor::distinct_channels(channels) {
        assert forall|i: int, j: int| 0 <= i < j < channels.len() implies (
        #[trigger] channels[i]).id != (#[trigger] channels[j]).id by {
            assert(!processor::repeats(channels, j));
        }
    }
}

/// The identifier that is reported as repeated stands at two places, and none before the
/// second of them is repeated.
pub proof fn law_reported_channel_is_repeated(channels: Seq<EntertainmentChannelView>, id: u16)
    requires
        processor::first_repeated(channels, id),
    ensures
        exists|i: int, j: int|
            0 <= i < j < channels.len() && (#[trigger] channels[i]).id == id && (
            #[trigger] channels[j]).id == id && forall|a: int, b: int|
                0 <= a < b < j ==> (#[trigger] channels[a]).id != (#[trigger] channels[b]).id,
{
    let j = choose|j: int|
        0 <= j < channels.len() && #[trigger] processor::repeats(channels, j) && channels[j].id
            == id && (forall|k: int| 0 <= k < j ==> !#[trigger] processor::repeats(channels, k));
    let i = choose|i: int| 0 <= i < j && (#[trigger] channels[i]).id == channels[j].id;
    assert forall|a: int, b: int| 0 <= a < b < j implies (#[trigger] channels[a]).id != (
    #[trigger] channels[b]).id by {
        assert(!processor::repeats(channels, b));
    }
    assert(channels[i].id == id && channels[j].id == id);
}

/// A preset is accepted exactly where its exposure is finite and the other numbers lie
/// from zero to one.
pub proof fn law_preset_is_accepted_iff_in_range(preset: PipelinePreset)
    ensures
        preset::valid_preset(preset) <==> {
            let unit = |bits: u32| bits <= 0x3f80_0000 || bits == 0x8000_0000;
            &&& preset.exposure < 0x7f80_0000 || 0x8000_0000 <= preset.exposure < 0xff80_0000
            &&& unit(preset.black_cutoff)
            &&& unit(preset.attack)
            &&& unit(preset.release)
        },
{
}

/// The stronger the intensity, the quicker colors follow, the brighter they are and the
/// closer they are sampled, in every mode; the black level is that of the mode.
pub proof fn law_intensity_grows(mode: SyncMode, weaker: Intensity, stronger: Intensity)
    requires
        (weaker is Subtle && stronger is Moderate) || (weaker is Moderate && stronger is High) || (
        weaker is High && stronger is Extreme),
    ensures
        ({
            let low = preset::preset_for(mode, weaker);
            let high = preset::preset_for(mode, stronger);
            &&& low.attack < high.attack
            &&& low.release < high.release
            &&& low.sample_radius >= high.sample_radius
            &&& low.black_cutoff == high.black_cutoff
            &&& if low.exposure >= 0x8000_0000 {
                high.exposure < low.exposure
            } else {
                low.exposure < high.exposure < 0x8000_0000
            }
        }),
{
}

/// A component that is no number decides nothing: a color is black where it has a number
/// and each of its numbers is at most the cutoff, and is left alone where it has none.
pub proof fn law_missing_numbers_decide_nothing(exposed: LinearRgb, black_cutoff: u32)
    requires
        black_cutoff <= 0x3f80_0000,
    ensures
        ({
            let target = light::target_color(exposed, black_cutoff);
            let missing = |bits: u32| 0x7f80_0000 < bits < 0x8000_0000 || bits > 0xff80_0000;
            let low = |bits: u32| bits <= black_cutoff || 0x8000_0000 <= bits <= 0xff80_0000;
            let all_missing = missing(exposed.red) && missing(exposed.green) && missing(
                exposed.blue,
            );
            &&& all_missing ==> target == exposed
            &&& !all_missing && (missing(exposed.red) || low(exposed.red)) && (missing(
                exposed.green,
            ) || low(exposed.green)) && (missing(exposed.blue) || low(exposed.blue)) ==> target
                == (LinearRgb { red: 0, green: 0, blue: 0 })
        }),
{
}

/// With the largest cutoff every color of numbers is black, and a cutoff of negative zero
/// is one of zero.
pub proof fn law_ends_of_the_cutoff(exposed: LinearRgb)
    requires
        exposed.red <= 0x7f80_0000 || 0x8000_0000 <= exposed.red <= 0xff80_0000,
        exposed.green <= 0x7f80_0000 || 0x8000_0000 <= exposed.green <= 0xff80_0000,
        exposed.blue <= 0x7f80_0000 || 0x8000_0000 <= exposed.blue <= 0xff80_0000,
    ensures
        light::target_color(exposed, 0x3f80_0000) == (LinearRgb { red: 0, green: 0, blue: 0 }),
        light::target_color(exposed, 0x8000_0000) == light::target_color(exposed, 0),
{
}

/// A component takes the release where it or its target is no number.
pub proof fn law_missing_numbers_take_the_release(
    previous: u32,
    target: u32,
    attack: u32,
    release: u32,
)
    requires
        ({
            ||| 0x7f80_0000 < previous < 0x8000_0000
            ||| previous > 0xff80_0000
            ||| 0x7f80_0000 < target < 0x8000_0000
            ||| target > 0xff80_0000
        }),
    ensures
        light::coefficient(previous, target, attack, release) == release,
{
}

/// A channel of a frame goes on from the color that the frame gave it.
pub proof fn law_channel_goes_on_from_its_color(
    previous: Map<u16, LinearRgb>,
    channels: Seq<EntertainmentChannelView>,
    smoothed: Seq<LinearRgb>,
    i: int,
)
    requires
        0 <= i < channels.len(),
        smoothed.len() == channels.len(),
        forall|j: int| i < j < channels.len() ==> (#[trigger] channels[j]).id != channels[i].id,
    ensures
        ({
            let after = processor::renewed_colors(previous, channels, smoothed, channels.len());
            &&& after.contains_key(channels[i].id)
            &&& after[channels[i].id] == smoothed[i]
        }),
{
    lemma_renewed(previous, channels, smoothed, i, channels.len());
}

proof fn lemma_renewed(
    previous: Map<u16, LinearRgb>,
    channels: Seq<EntertainmentChannelView>,
    smoothed: Seq<LinearRgb>,
    i: int,
    n: nat,
)
    requires
        0 <= i < n <= channels.len(),
        smoothed.len() == channels.len(),
        forall|j: int| i < j < channels.len() ==> (#[trigger] channels[j]).id != channels[i].id,
    ensures
        ({
            let after = processor::renewed_colors(previous, channels, smoothed, n);
            &&& after.contains_key(channels[i].id)
            &&& after[channels[i].id] == smoothed[i]
        }),
    decreases n,
{
    if i < n - 1 {
        lemma_renewed(previous, channels, smoothed, i, (n - 1) as nat);
        assert(channels[n - 1].id != channels[i].id);
    }
}

/// Games are followed quicker than anything else unless all is followed at once, and
/// sampled most closely; a subtle intensity samples two pixels farther than the mode does,
/// a moderate one a single pixel.
pub proof fn law_modes_differ_in_their_presets(mode: SyncMode, intensity: Intensity)
    ensures
        ({
            let preset = preset::preset_for(mode, intensity);
            let game = preset::preset_for(SyncMode::Game, intensity);
            let closest = preset::preset_for(mode, Intensity::Extreme).sample_radius;
            &&& mode != SyncMode::Game ==> preset.release < game.release
            &&& mode != SyncMode::Game && intensity != Intensity::Extreme ==> preset.attack
                < game.attack
            &&& mode != SyncMode::Game ==> preset.sample_radius > game.sample_radius
            &&& mode != SyncMode::Game ==> preset.black_cutoff > game.black_cutoff
            &&& intensity == Intensity::Extreme ==> preset.attack == 0x3f80_0000
            &&& preset.release < preset.attack
            &&& intensity == Intensity::Subtle ==> preset.sample_radius == closest + 2
            &&& intensity == Intensity::Moderate ==> preset.sample_radius == closest + 1
            &&& intensity == Intensity::High ==> preset.sample_radius == closest
            &&& mode == SyncMode::Game ==> closest == 1
            &&& mode == SyncMode::Video ==> closest == 2
            &&& mode == SyncMode::Music ==> closest == 3
            &&& mode == SyncMode::Scene ==> closest == 4
        }),
{
}

/// A frame that is refused is refused for the first of its faults: no pixels, a row that
/// is longer than its stride, or too few bytes; the error tells what there is and what it
/// would take.
pub proof fn law_refused_frame_is_told_why(
    len: nat,
    width: nat,
    height: nat,
    stride: i32,
    format: PixelFormat,
    row: int,
    step: int,
)
    requires
        len <= usize::MAX,
        stride != i32::MIN,
        format == PixelFormat::Rgb8 ==> row == 3 * width,
        format != PixelFormat::Rgb8 ==> row == 4 * width,
        stride >= 0 ==> step == stride,
        stride < 0 ==> step == -stride,
        row <= usize::MAX,
        step <= usize::MAX,
    ensures
        ({
            let problem = frame::frame_problem(len, width, height, stride, format);
            let empty = width == 0 || height == 0;
            let required = (height - 1) * step + row;
            &&& problem == Some(FrameError::EmptyDimensions) <==> empty
            &&& !empty && step < row ==> problem == Some(
                (FrameError::StrideTooSmall { stride: step as usize, row_bytes: row as usize }),
            )
            &&& !empty && step >= row && required > usize::MAX ==> problem == Some(
                FrameError::DimensionsOverflow,
            )
            &&& !empty && step >= row && len < required <= usize::MAX ==> problem == Some(
                (FrameError::BufferTooSmall { actual: len as usize, required: required as usize }),
            )
        }),
{
}

} // verus!
