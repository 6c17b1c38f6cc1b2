//! Channels, and the colors that they had before.
use crate::domain::config::{
    EntertainmentChannel, EntertainmentChannelView, Intensity, SyncMode,
};
use crate::engine::preset::{PipelinePreset, ProcessorError};
use crate::engine::preset;
use crate::number;
use std::collections::BTreeMap;
use vstd::prelude::*;
use vstd::std_specs::cmp::PartialEqSpecImpl;

verus! {

/// A color in linear light; the components are single-precision bit patterns.
#[derive(Clone, Copy, Debug)]
pub struct LinearRgb {
    pub red: u32,
    pub green: u32,
    pub blue: u32,
}

impl PartialEq for LinearRgb {
    fn eq(&self, other: &Self) -> (r: bool) {
        number::singles_equal(self.red, other.red) && number::singles_equal(
            self.green,
            other.green,
        ) && number::singles_equal(self.blue, other.blue)
    }
}

impl PartialEqSpecImpl for LinearRgb {
    open spec fn obeys_eq_spec() -> bool {
        true
    }

    open spec fn eq_spec(&self, other: &Self) -> bool {
        &&& number::same_single(self.red, other.red)
        &&& number::same_single(self.green, other.green)
        &&& number::same_single(self.blue, other.blue)
    }
}

/// Black in linear light.
pub open spec fn black() -> LinearRgb {
    LinearRgb { red: 0, green: 0, blue: 0 }
}

impl Default for LinearRgb {
    fn default() -> (r: Self)
        ensures
            r == black(),
    {
        LinearRgb { red: 0, green: 0, blue: 0 }
    }
}

/// A color of sixteen bits for each component.
#[derive(Clone, Copy, Debug, PartialEq, Eq, Structural)]
pub struct Rgb16 {
    pub red: u16,
    pub green: u16,
    pub blue: u16,
}

/// The color of a channel.
#[derive(Clone, Copy, Debug, PartialEq, Eq, Structural)]
pub struct ChannelColor {
    pub channel_id: u16,
    pub color: Rgb16,
}

/// Whether the channel at a place repeats the identifier of an earlier one.
pub open spec fn repeats(channels: Seq<EntertainmentChannelView>, i: int) -> bool {
    exists|j: int| 0 <= j < i && (#[trigger] channels[j]).id == channels[i].id
}

/// Whether no two channels share an identifier.
pub open spec fn distinct_channels(channels: Seq<EntertainmentChannelView>) -> bool {
    forall|i: int| 0 <= i < channels.len() ==> !#[trigger] repeats(channels, i)
}

/// Whether `id` is the identifier of the first channel that repeats one.
pub open spec fn first_repeated(channels: Seq<EntertainmentChannelView>, id: u16) -> bool {
    exists|i: int|
        0 <= i < channels.len() && #[trigger] repeats(channels, i) && channels[i].id == id && (
        forall|j: int| 0 <= j < i ==> !#[trigger] repeats(channels, j))
}

/// Whether a channel with this identifier is among the channels.
pub open spec fn has_channel(channels: Seq<EntertainmentChannelView>, id: u16) -> bool {
    exists|i: int| 0 <= i < channels.len() && (#[trigger] channels[i]).id == id
}

fn validate_channels(channels: &Vec<EntertainmentChannel>) -> (r: Result<(), ProcessorError>)
    ensures
        r is Ok <==> distinct_channels(channels.deep_view()),
        r matches Err(error) ==> {
            &&& error matches ProcessorError::DuplicateChannel(id)
            &&& first_repeated(channels.deep_view(), id)
        },
{
    let ghost all = channels.deep_view();
    let mut i: usize = 0;
    while i < channels.len()
        invariant
            i <= channels.len(),
            all == channels.deep_view(),
            forall|k: int| 0 <= k < i ==> !#[trigger] repeats(all, k),
        decreases channels.len() - i,
    {
        let mut j: usize = 0;
        while j < i
            invariant
                j <= i < channels.len(),
                all == channels.deep_view(),
                forall|k: int| 0 <= k < i ==> !#[trigger] repeats(all, k),
                forall|k: int| 0 <= k < j ==> (#[trigger] all[k]).id != all[i as int].id,
            decreases i - j,
        {
            if channels[j].id == channels[i].id {
                assert(all[j as int].id == all[i as int].id);
                assert(repeats(all, i as int));
                return Err(ProcessorError::DuplicateChannel(channels[i].id));
            }
            j += 1;
        }
        i += 1;
    }
    Ok(())
}

/// The channels of an area, each with the color that smoothing starts from.
#[derive(Debug)]
pub struct ColorProcessor {
    channels: Vec<EntertainmentChannel>,
    previous: BTreeMap<u16, LinearRgb>,
}

impl Default for ColorProcessor {
    /// No channels.
    fn default() -> (r: Self)
        ensures
            r.area() == Seq::<EntertainmentChannelView>::empty(),
            r.previous() == Map::<u16, LinearRgb>::empty(),
    {
        let r: Self = ColorProcessor { channels: Vec::new(), previous: BTreeMap::new() };
        assert(r.area() =~= Seq::<EntertainmentChannelView>::empty());
        r
    }
}

/// Earlier colors without those of channels that are gone.
pub open spec fn kept_colors(
    previous: Map<u16, LinearRgb>,
    channels: Seq<EntertainmentChannelView>,
) -> Map<u16, LinearRgb> {
    previous.restrict(Set::new(|id: u16| has_channel(channels, id)))
}

/// Earlier colors with those of the first `n` channels replaced.
pub open spec fn renewed_colors(
    previous: Map<u16, LinearRgb>,
    channels: Seq<EntertainmentChannelView>,
    smoothed: Seq<LinearRgb>,
    n: nat,
) -> Map<u16, LinearRgb>
    decreases n,
{
    if n == 0 {
        previous
    } else {
        renewed_colors(previous, channels, smoothed, (n - 1) as nat).insert(
            channels[n - 1].id,
            smoothed[n - 1],
        )
    }
}

/// The color that smoothing starts from: black where there is none.
pub open spec fn starting_color(previous: Map<u16, LinearRgb>, id: u16) -> LinearRgb {
    if previous.contains_key(id) {
        previous[id]
    } else {
        black()
    }
}

impl ColorProcessor {
    /// The channels.
    pub closed spec fn area(&self) -> Seq<EntertainmentChannelView> {
        self.channels.deep_view()
    }

    /// The earlier colors.
    pub closed spec fn previous(&self) -> Map<u16, LinearRgb> {
        self.previous@
    }

    #[verifier::type_invariant]
    spec fn distinct(&self) -> bool {
        distinct_channels(self.channels.deep_view())
    }

    /// Takes channels that differ in their identifiers.
    pub fn new(channels: Vec<EntertainmentChannel>) -> (r: Result<Self, ProcessorError>)
        ensures
            r is Ok <==> distinct_channels(channels.deep_view()),
            r matches Ok(processor) ==> processor.area() == channels.deep_view()
                && processor.previous() == Map::<u16, LinearRgb>::empty(),
            r matches Err(error) ==> {
                &&& error matches ProcessorError::DuplicateChannel(id)
                &&& first_repeated(channels.deep_view(), id)
            },
    {
        match validate_channels(&channels) {
            Ok(()) => Ok(ColorProcessor { channels, previous: BTreeMap::new() }),
            Err(error) => Err(error),
        }
    }

    /// The channels.
    pub fn channels(&self) -> (r: &Vec<EntertainmentChannel>)
        ensures
            r.deep_view() == self.area(),
            distinct_channels(r.deep_view()),
    {
        proof {
            use_type_invariant(self);
        }
        &self.channels
    }

    /// Changes the channels; those that stay keep their colors.
    pub fn set_channels(&mut self, channels: Vec<EntertainmentChannel>) -> (r: Result<
        (),
        ProcessorError,
    >)
        ensures
            r is Ok <==> distinct_channels(channels.deep_view()),
            r is Ok ==> final(self).area() == channels.deep_view() && final(self).previous()
                == kept_colors(old(self).previous(), channels.deep_view()),
            r matches Err(error) ==> {
                &&& *final(self) == *old(self)
                &&& error matches ProcessorError::DuplicateChannel(id)
                &&& first_repeated(channels.deep_view(), id)
            },
    {
        match validate_channels(&channels) {
            Err(error) => Err(error),
            Ok(()) => {
                let ghost all = channels.deep_view();
                let ghost before = self.previous@;
                let mut previous: BTreeMap<u16, LinearRgb> = BTreeMap::new();
                let mut i: usize = 0;
                while i < channels.len()
                    invariant
                        i <= channels.len(),
                        all == channels.deep_view(),
                        before == self.previous@,
                        forall|id: u16| #[trigger]
                            previous@.contains_key(id) <==> before.contains_key(id)
                                && has_channel(all.take(i as int), id),
                        forall|id: u16|
                            previous@.contains_key(id) ==> #[trigger] previous@[id] == before[id],
                    decreases channels.len() - i,
                {
                    let id: u16 = channels[i].id;
                    proof {
                        let short = all.take(i as int);
                        let long = all.take(i + 1);
                        assert(long =~= short.push(all[i as int]));
                        assert forall|other: u16| #[trigger]
                            has_channel(long, other) <==> has_channel(short, other) || other
                                == id by {
                            if has_channel(short, other) {
                                let k = choose|k: int|
                                    0 <= k < short.len() && (#[trigger] short[k]).id == other;
                                assert(long[k].id == other);
                            }
                            if other == id {
                                assert(long[i as int].id == other);
                            }
                            if has_channel(long, other) {
                                let k = choose|k: int|
                                    0 <= k < long.len() && (#[trigger] long[k]).id == other;
                                if k < i {
                                    assert(short[k].id == other);
                                }
                            }
                        }
                    }
                    if let Some(color) = self.previous.get(&id) {
                        previous.insert(id, *color);
                    }
                    i += 1;
                }
                assert(all.take(all.len() as int) =~= all);
                assert(previous@ =~= kept_colors(before, all));
                *self = ColorProcessor { channels, previous };
                Ok(())
            },
        }
    }

    /// Forgets all earlier colors.
    pub fn reset_smoothing(&mut self)
        ensures
            final(self).area() == old(self).area(),
            final(self).previous() == Map::<u16, LinearRgb>::empty(),
    {
        proof {
            use_type_invariant(&*self);
        }
        self.previous = BTreeMap::new();
    }

    /// The colors that smoothing starts from, in the order of the channels.
    pub fn starting_colors(&self) -> (r: Vec<LinearRgb>)
        ensures
            r@.len() == self.area().len(),
            forall|i: int|
                0 <= i < r@.len() ==> #[trigger] r@[i] == starting_color(
                    self.previous(),
                    self.area()[i].id,
                ),
    {
        let mut colors: Vec<LinearRgb> = Vec::new();
        let mut i: usize = 0;
        while i < self.channels.len()
            invariant
                i <= self.channels.len(),
                colors@.len() == i,
                forall|j: int|
                    0 <= j < i ==> #[trigger] colors@[j] == starting_color(
                        self.previous(),
                        self.area()[j].id,
                    ),
            decreases self.channels.len() - i,
        {
            let color: LinearRgb = match self.previous.get(&self.channels[i].id) {
                Some(color) => *color,
                None => LinearRgb { red: 0, green: 0, blue: 0 },
            };
            assert(self.area()[i as int].id == self.channels[i as int].id);
            colors.push(color);
            i += 1;
        }
        colors
    }

    /// Takes the smoothed colors of a frame that was processed for a mode and an
    /// intensity, and gives the channels their colors in the order of the channels.
    pub fn process(
        &mut self,
        mode: SyncMode,
        intensity: Intensity,
        smoothed: &Vec<LinearRgb>,
        colors: &Vec<Rgb16>,
    ) -> (r: Result<Vec<ChannelColor>, ProcessorError>)
        requires
            smoothed@.len() == old(self).area().len(),
            colors@.len() == old(self).area().len(),
        ensures
            final(self).area() == old(self).area(),
            final(self).previous() == renewed_colors(
                old(self).previous(),
                old(self).area(),
                smoothed@,
                old(self).area().len(),
            ),
            r matches Ok(output) && output@.len() == old(self).area().len() && forall|i: int|
                0 <= i < output@.len() ==> #[trigger] output@[i] == (ChannelColor {
                    channel_id: old(self).area()[i].id,
                    color: colors@[i],
                }),
    {
        proof {
            preset::law_mode_presets_are_valid(mode, intensity);
        }
        self.process_with_preset(PipelinePreset::for_mode(mode, intensity), smoothed, colors)
    }

    /// Takes the smoothed colors of a frame, in linear light and as they are
    /// sent, and gives the channels their colors in the order of the channels.
    pub fn process_with_preset(
        &mut self,
        preset: PipelinePreset,
        smoothed: &Vec<LinearRgb>,
        colors: &Vec<Rgb16>,
    ) -> (r: Result<Vec<ChannelColor>, ProcessorError>)
        requires
            smoothed@.len() == old(self).area().len(),
            colors@.len() == old(self).area().len(),
        ensures
            r is Ok <==> preset::valid_preset(preset),
            final(self).area() == old(self).area(),
            r matches Ok(output) ==> {
                &&& final(self).previous() == renewed_colors(
                    old(self).previous(),
                    old(self).area(),
                    smoothed@,
                    old(self).area().len(),
                )
                &&& output@.len() == old(self).area().len()
                &&& forall|i: int|
                    0 <= i < output@.len() ==> #[trigger] output@[i] == (ChannelColor {
                        channel_id: old(self).area()[i].id,
                        color: colors@[i],
                    })
            },
            r matches Err(error) ==> error == ProcessorError::InvalidPreset && *final(self) == *old(
                self,
            ),
    {
        match preset.validate() {
            Ok(_) => {},
            Err(error) => return Err(error),
        }
        proof {
            use_type_invariant(&*self);
        }
        let ghost all = self.area();
        let ghost before = self.previous@;
        let mut previous: BTreeMap<u16, LinearRgb> = BTreeMap::new();
        std::mem::swap(&mut previous, &mut self.previous);
        let mut output: Vec<ChannelColor> = Vec::new();
        let mut i: usize = 0;
        while i < self.channels.len()
            invariant
                i <= self.channels.len(),
                all == self.channels.deep_view(),
                all == self.area(),
                distinct_channels(all),
                smoothed@.len() == all.len(),
                colors@.len() == all.len(),
                previous@ == renewed_colors(before, all, smoothed@, i as nat),
                output@.len() == i,
                forall|j: int|
                    0 <= j < i ==> #[trigger] output@[j] == (ChannelColor {
                        channel_id: all[j].id,
                        color: colors@[j],
                    }),
            decreases self.channels.len() - i,
        {
            let id: u16 = self.channels[i].id;
            assert(all[i as int].id == id);
            previous.insert(id, smoothed[i]);
            output.push(ChannelColor { channel_id: id, color: colors[i] });
            i += 1;
        }
        self.previous = previous;
        Ok(output)
    }
}

/// After a frame, smoothing starts from each channel's own smoothed color.
pub proof fn law_smoothing_goes_on_from_the_last_frame(
    previous: Map<u16, LinearRgb>,
    channels: Seq<EntertainmentChannelView>,
    smoothed: Seq<LinearRgb>,
    i: int,
    n: nat,
)
    requires
        distinct_channels(channels),
        0 <= i < n <= channels.len(),
        smoothed.len() == channels.len(),
    ensures
        starting_color(renewed_colors(previous, channels, smoothed, n), channels[i].id)
            == smoothed[i],
    decreases n,
{
    if i < n - 1 {
        law_smoothing_goes_on_from_the_last_frame(previous, channels, smoothed, i, (n - 1) as nat);
        if channels[i].id == channels[n - 1].id {
            assert(repeats(channels, n - 1));
        }
    }
}

/// Smoothing of a channel that was gone for a while starts from black again.
pub proof fn law_removed_channel_starts_from_black(
    previous: Map<u16, LinearRgb>,
    channels: Seq<EntertainmentChannelView>,
    id: u16,
)
    ensures
        !has_channel(channels, id) ==> starting_color(kept_colors(previous, channels), id)
            == black(),
        has_channel(channels, id) ==> starting_color(kept_colors(previous, channels), id)
            == starting_color(previous, id),
{
}

} // verus!
