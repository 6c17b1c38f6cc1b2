//! Entertainment areas: when they can be used, and what their use leaves to do.
use crate::hue::bridge::{hue_error, HueError};
use crate::hue::light::{
    EntertainmentConfiguration, EntertainmentConfigurationView, LightSnapshot, LightSnapshotView,
};
use crate::number;
use crate::text;
use vstd::prelude::*;
use vstd::std_specs::cmp::PartialEqSpecImpl;

verus! {

/// An entertainment area of a bridge in brief.
#[derive(Debug, PartialEq, Eq)]
pub struct EntertainmentArea {
    pub id: String,
    pub name: String,
    pub channels: u16,
    pub active: bool,
    pub active_streamer: Option<String>,
}

/// The mathematical value of [`EntertainmentArea`].
#[verifier::ext_equal]
pub struct EntertainmentAreaView {
    pub id: Seq<char>,
    pub name: Seq<char>,
    pub channels: u16,
    pub active: bool,
    pub active_streamer: Option<Seq<char>>,
}

impl DeepView for EntertainmentArea {
    type V = EntertainmentAreaView;

    open spec fn deep_view(&self) -> EntertainmentAreaView {
        EntertainmentAreaView {
            id: self.id.deep_view(),
            name: self.name.deep_view(),
            channels: self.channels,
            active: self.active,
            active_streamer: self.active_streamer.deep_view(),
        }
    }
}

impl Clone for EntertainmentArea {
    fn clone(&self) -> (r: Self)
        ensures
            r.deep_view() == self.deep_view(),
    {
        EntertainmentArea {
            id: self.id.clone(),
            name: self.name.clone(),
            channels: self.channels,
            active: self.active,
            active_streamer: self.active_streamer.clone(),
        }
    }
}

/// The place of a channel; the coordinates are single-precision bit patterns.
#[derive(Clone, Copy, Debug)]
pub struct ChannelPosition {
    pub channel_id: u8,
    pub x: u32,
    pub y: u32,
    pub z: u32,
}

impl PartialEq for ChannelPosition {
    fn eq(&self, other: &Self) -> (r: bool) {
        self.channel_id == other.channel_id && number::singles_equal(self.x, other.x)
            && number::singles_equal(self.y, other.y) && number::singles_equal(self.z, other.z)
    }
}

impl PartialEqSpecImpl for ChannelPosition {
    open spec fn obeys_eq_spec() -> bool {
        true
    }

    open spec fn eq_spec(&self, other: &Self) -> bool {
        &&& self.channel_id == other.channel_id
        &&& number::same_single(self.x, other.x)
        &&& number::same_single(self.y, other.y)
        &&& number::same_single(self.z, other.z)
    }
}

/// An area in brief.
pub open spec fn area_summary(area: EntertainmentConfigurationView) -> EntertainmentAreaView {
    EntertainmentAreaView {
        id: area.id,
        name: area.name,
        channels: if area.channels.len() > u16::MAX {
            u16::MAX
        } else {
            area.channels.len() as u16
        },
        active: area.status == "active"@,
        active_streamer: area.active_streamer,
    }
}

/// An area in brief.
pub fn summarize(area: &EntertainmentConfiguration) -> (r: EntertainmentArea)
    ensures
        r.deep_view() == area_summary(area.deep_view()),
{
    let count: usize = area.channels.len();
    EntertainmentArea {
        id: area.id.clone(),
        name: area.name.clone(),
        channels: if count > u16::MAX as usize {
            u16::MAX
        } else {
            count as u16
        },
        active: text::str_eq(area.status.as_str(), "active"),
        active_streamer: area.active_streamer.clone(),
    }
}

/// The places of the channels of an area, in their order.
pub fn channel_positions(area: &EntertainmentConfiguration) -> (r: Vec<ChannelPosition>)
    ensures
        r@.len() == area.deep_view().channels.len(),
        forall|i: int|
            #![trigger r@[i]]
            0 <= i < r@.len() ==> {
                let channel = area.deep_view().channels[i];
                r@[i] == (ChannelPosition {
                    channel_id: channel.channel_id,
                    x: channel.x,
                    y: channel.y,
                    z: channel.z,
                })
            },
{
    let mut r: Vec<ChannelPosition> = Vec::new();
    let ghost channels = area.deep_view().channels;
    let mut i: usize = 0;
    while i < area.channels.len()
        invariant
            i <= area.channels.len(),
            channels == area.channels.deep_view(),
            r@.len() == i,
            forall|j: int|
                #![trigger r@[j]]
                0 <= j < i ==> r@[j] == (ChannelPosition {
                    channel_id: channels[j].channel_id,
                    x: channels[j].x,
                    y: channels[j].y,
                    z: channels[j].z,
                }),
        decreases area.channels.len() - i,
    {
        assert(channels[i as int] == area.channels[i as int].deep_view());
        r.push(
            ChannelPosition {
                channel_id: area.channels[i].channel_id,
                x: area.channels[i].x,
                y: area.channels[i].y,
                z: area.channels[i].z,
            },
        );
        i += 1;
    }
    r
}

/// The area of a response: the first one, if it still exists.
pub fn selected_area(areas: Vec<EntertainmentConfiguration>) -> (r: Result<
    EntertainmentConfiguration,
    HueError,
>)
    ensures
        r is Ok <==> areas@.len() > 0,
        r matches Ok(area) ==> area.deep_view() == areas@[0].deep_view(),
        r matches Err(error) ==> error@ == "selected Hue Entertainment area no longer exists"@,
{
    if areas.len() == 0 {
        return Err(hue_error("selected Hue Entertainment area no longer exists"));
    }
    Ok(areas[0].clone())
}

/// Refuses to start an area that is active.
pub fn check_startable(area: &EntertainmentConfiguration) -> (r: Result<(), HueError>)
    ensures
        r is Ok <==> area.deep_view().status != "active"@,
        r matches Err(error) ==> error@ == "Hue Entertainment area is already active"@,
{
    if text::str_eq(area.status.as_str(), "active") {
        return Err(hue_error("Hue Entertainment area is already active"));
    }
    Ok(())
}

/// Why no stream is opened to an area, if none is.
pub open spec fn open_problem(area: EntertainmentConfigurationView) -> Option<Seq<char>> {
    if area.status == "active"@ {
        Some("Hue Entertainment area is already active; refusing to take it over"@)
    } else if area.channels.len() == 0 {
        Some("Hue Entertainment area has no channels"@)
    } else {
        None
    }
}

/// Refuses a stream to an area that is active, or that has no channels.
pub fn check_openable(area: &EntertainmentConfiguration) -> (r: Result<(), HueError>)
    ensures
        r is Ok <==> open_problem(area.deep_view()) is None,
        r matches Err(error) ==> Some(error@) == open_problem(area.deep_view()),
{
    if text::str_eq(area.status.as_str(), "active") {
        return Err(
            hue_error("Hue Entertainment area is already active; refusing to take it over"),
        );
    }
    if area.channels.len() == 0 {
        return Err(hue_error("Hue Entertainment area has no channels"));
    }
    Ok(())
}

/// What is left to do when an area that was activated is given up.
#[derive(Debug, PartialEq)]
pub struct Cleanup {
    /// The lights to put back after the area is stopped.
    pub snapshot: Option<LightSnapshot>,
}

/// Holds what is to be done if activating an area does not lead to a stream.
/// From the moment at which the activation may have reached the bridge until a
/// stream takes over, giving up means cleaning up.
#[derive(Debug)]
pub struct ActivationGuard {
    snapshot: Option<LightSnapshot>,
    armed: bool,
}

impl ActivationGuard {
    /// The lights to put back.
    pub closed spec fn snapshot(&self) -> Option<LightSnapshotView> {
        self.snapshot.deep_view()
    }

    /// Whether giving up means cleaning up.
    pub closed spec fn armed(&self) -> bool {
        self.armed
    }

    /// A guard that is not armed yet.
    pub fn new(snapshot: LightSnapshot) -> (r: Self)
        ensures
            r.snapshot() == Some(snapshot.deep_view()),
            !r.armed(),
    {
        ActivationGuard { snapshot: Some(snapshot), armed: false }
    }

    /// Arms the guard; done before the activation is sent.
    pub fn arm(&mut self)
        ensures
            final(self).snapshot() == old(self).snapshot(),
            final(self).armed(),
    {
        self.armed = true;
    }

    /// Hands over to a stream, with the lights to put back at its end if they
    /// are to be put back.
    pub fn disarm(self, restore_on_stop: bool) -> (r: Option<LightSnapshot>)
        ensures
            r.deep_view() == if restore_on_stop {
                self.snapshot()
            } else {
                None
            },
    {
        if restore_on_stop {
            self.snapshot
        } else {
            None
        }
    }

    /// What is left to do if the guard is given up now; only the first time.
    pub fn give_up(&mut self) -> (r: Option<Cleanup>)
        ensures
            r is Some <==> old(self).armed(),
            r matches Some(cleanup) ==> cleanup.snapshot.deep_view() == old(self).snapshot(),
            !old(self).armed() ==> *final(self) == *old(self),
            old(self).armed() ==> !final(self).armed() && final(self).snapshot() is None,
    {
        if !self.armed {
            return None;
        }
        self.armed = false;
        Some(Cleanup { snapshot: self.snapshot.take() })
    }
}

/// What the end of a stream came to: the first failure of its sender, of
/// stopping the area and of putting its lights back.
pub fn stop_result(
    worker: Result<(), HueError>,
    stop: Result<(), HueError>,
    restore: Result<(), HueError>,
) -> (r: Result<(), HueError>)
    ensures
        worker is Err ==> r == worker,
        worker is Ok && stop is Err ==> r == stop,
        worker is Ok && stop is Ok ==> r == restore,
{
    match worker {
        Err(error) => Err(error),
        Ok(()) => match stop {
            Err(error) => Err(error),
            Ok(()) => restore,
        },
    }
}

} // verus!
