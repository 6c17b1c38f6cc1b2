//! Whether two values that the service sends are the same.
use crate::domain::config::{
    AreaId, CaptureBackend, DisplayId, EntertainmentArea, EntertainmentAreaView,
    EntertainmentChannel, EntertainmentChannelView, NormalizedPoint, Profile, ProfileView,
    SyncMode,
};
use crate::domain::config;
use crate::domain::ipc::{DiscoveredBridge, DiscoveredBridgeView};
use crate::domain::state::Capabilities;
use crate::text;
use vstd::prelude::*;

verus! {

/// Whether two positions are equal.
pub open spec fn same_position(a: NormalizedPoint, b: NormalizedPoint) -> bool {
    config::same_coordinate(a.x_bits(), b.x_bits()) && config::same_coordinate(a.y_bits(), b.y_bits())
}

/// Whether two channels are equal.
pub open spec fn same_channel(a: EntertainmentChannelView, b: EntertainmentChannelView) -> bool {
    a.id == b.id && a.name == b.name && same_position(a.position, b.position)
}

/// Whether two lists of channels are equal.
pub open spec fn same_channel_list(
    a: Seq<EntertainmentChannelView>,
    b: Seq<EntertainmentChannelView>,
) -> bool {
    a.len() == b.len() && forall|i: int| 0 <= i < a.len() ==> #[trigger] same_channel(a[i], b[i])
}

/// Whether two areas are equal.
pub open spec fn same_area(a: EntertainmentAreaView, b: EntertainmentAreaView) -> bool {
    a.id == b.id && a.name == b.name && same_channel_list(a.channels, b.channels)
}

/// Whether two lists of areas are equal.
pub open spec fn same_area_list(
    a: Seq<EntertainmentAreaView>,
    b: Seq<EntertainmentAreaView>,
) -> bool {
    a.len() == b.len() && forall|i: int| 0 <= i < a.len() ==> #[trigger] same_area(a[i], b[i])
}

fn optional_text_equal(a: &Option<String>, b: &Option<String>) -> (r: bool)
    ensures
        r == (a.deep_view() == b.deep_view()),
{
    match (a, b) {
        (Some(a), Some(b)) => text::str_eq(a.as_str(), b.as_str()),
        (None, None) => true,
        _ => false,
    }
}

/// Whether two selected areas are the same.
pub fn optional_area_equal(a: &Option<AreaId>, b: &Option<AreaId>) -> (r: bool)
    ensures
        r == (a.deep_view() == b.deep_view()),
{
    match (a, b) {
        (Some(a), Some(b)) => a.same(b),
        (None, None) => true,
        _ => false,
    }
}

fn optional_display_equal(a: &Option<DisplayId>, b: &Option<DisplayId>) -> (r: bool)
    ensures
        r == (a.deep_view() == b.deep_view()),
{
    match (a, b) {
        (Some(a), Some(b)) => a.same(b),
        (None, None) => true,
        _ => false,
    }
}

fn channel_equal(a: &EntertainmentChannel, b: &EntertainmentChannel) -> (r: bool)
    ensures
        r == same_channel(a.deep_view(), b.deep_view()),
{
    a.id == b.id && optional_text_equal(&a.name, &b.name) && a.position == b.position
}

/// Whether two lists are as long and the same at every place.
pub open spec fn same_list<V>(a: Seq<V>, b: Seq<V>, same: spec_fn(V, V) -> bool) -> bool {
    a.len() == b.len() && forall|i: int| 0 <= i < a.len() ==> same(#[trigger] a[i], b[i])
}

fn lists_equal<T: DeepView, F: Fn(&T, &T) -> bool>(
    a: &Vec<T>,
    b: &Vec<T>,
    equal: F,
    Ghost(same): Ghost<spec_fn(T::V, T::V) -> bool>,
) -> (r: bool)
    requires
        forall|x: &T, y: &T| call_requires(equal, (x, y)),
        forall|x: &T, y: &T, answer: bool| #[trigger]
            call_ensures(equal, (x, y), answer) ==> answer == same(x.deep_view(), y.deep_view()),
    ensures
        r == same_list(a.deep_view(), b.deep_view(), same),
{
    let ghost va = a.deep_view();
    let ghost vb = b.deep_view();
    if a.len() != b.len() {
        assert(va.len() != vb.len());
        return false;
    }
    let mut i: usize = 0;
    while i < a.len()
        invariant
            i <= a.len(),
            a.len() == b.len(),
            va == a.deep_view(),
            vb == b.deep_view(),
            forall|x: &T, y: &T| call_requires(equal, (x, y)),
            forall|x: &T, y: &T, answer: bool| #[trigger]
                call_ensures(equal, (x, y), answer) ==> answer == same(
                    x.deep_view(),
                    y.deep_view(),
                ),
            forall|j: int| 0 <= j < i ==> same(#[trigger] va[j], vb[j]),
        decreases a.len() - i,
    {
        if !equal(&a[i], &b[i]) {
            assert(!same(va[i as int], vb[i as int]));
            return false;
        }
        i += 1;
    }
    true
}

fn channels_equal(a: &Vec<EntertainmentChannel>, b: &Vec<EntertainmentChannel>) -> (r: bool)
    ensures
        r == same_channel_list(a.deep_view(), b.deep_view()),
{
    lists_equal(
        a,
        b,
        channel_equal,
        Ghost(|x: EntertainmentChannelView, y: EntertainmentChannelView| same_channel(x, y)),
    )
}

fn area_equal(a: &EntertainmentArea, b: &EntertainmentArea) -> (r: bool)
    ensures
        r == same_area(a.deep_view(), b.deep_view()),
{
    a.id.same(&b.id) && text::str_eq(a.name.as_str(), b.name.as_str()) && channels_equal(
        &a.channels,
        &b.channels,
    )
}

/// Whether two lists of areas are equal.
pub fn areas_equal(a: &Vec<EntertainmentArea>, b: &Vec<EntertainmentArea>) -> (r: bool)
    ensures
        r == same_area_list(a.deep_view(), b.deep_view()),
{
    lists_equal(
        a,
        b,
        area_equal,
        Ghost(|x: EntertainmentAreaView, y: EntertainmentAreaView| same_area(x, y)),
    )
}

fn bridge_equal(a: &DiscoveredBridge, b: &DiscoveredBridge) -> (r: bool)
    ensures
        r == (a.deep_view() == b.deep_view()),
{
    a.id.same(&b.id) && text::str_eq(a.host.as_str(), b.host.as_str()) && optional_text_equal(
        &a.name,
        &b.name,
    )
}

/// Whether two lists of bridges are equal.
pub fn bridges_equal(a: &Vec<DiscoveredBridge>, b: &Vec<DiscoveredBridge>) -> (r: bool)
    ensures
        r == (a.deep_view() == b.deep_view()),
{
    let r: bool = lists_equal(a, b, bridge_equal, Ghost(|x: DiscoveredBridgeView, y: DiscoveredBridgeView| x == y));
    assert(r ==> a.deep_view() =~= b.deep_view());
    r
}

fn profile_equal(a: &Profile, b: &Profile) -> (r: bool)
    ensures
        r == (a.deep_view() == b.deep_view()),
{
    a.id == b.id && text::str_eq(a.name.as_str(), b.name.as_str()) && a.settings == b.settings
        && optional_display_equal(&a.display, &b.display) && optional_area_equal(&a.area, &b.area)
}

/// Whether two lists of profiles are equal.
pub fn profiles_equal(a: &Vec<Profile>, b: &Vec<Profile>) -> (r: bool)
    ensures
        r == (a.deep_view() == b.deep_view()),
{
    let r: bool = lists_equal(a, b, profile_equal, Ghost(|x: ProfileView, y: ProfileView| x == y));
    assert(r ==> a.deep_view() =~= b.deep_view());
    r
}

fn version_equal(a: &u32, b: &u32) -> (r: bool)
    ensures
        r == (a.deep_view() == b.deep_view()),
{
    *a == *b
}

fn backend_equal(a: &CaptureBackend, b: &CaptureBackend) -> (r: bool)
    ensures
        r == (a.deep_view() == b.deep_view()),
{
    *a == *b
}

fn mode_equal(a: &SyncMode, b: &SyncMode) -> (r: bool)
    ensures
        r == (a.deep_view() == b.deep_view()),
{
    *a == *b
}

fn versions_equal(a: &Vec<u32>, b: &Vec<u32>) -> (r: bool)
    ensures
        r == (a.deep_view() == b.deep_view()),
{
    let r: bool = lists_equal(a, b, version_equal, Ghost(|x: u32, y: u32| x == y));
    assert(r ==> a.deep_view() =~= b.deep_view());
    r
}

fn backends_equal(a: &Vec<CaptureBackend>, b: &Vec<CaptureBackend>) -> (r: bool)
    ensures
        r == (a.deep_view() == b.deep_view()),
{
    let r: bool = lists_equal(a, b, backend_equal, Ghost(|x: CaptureBackend, y: CaptureBackend| x == y));
    assert(r ==> a.deep_view() =~= b.deep_view());
    r
}

fn modes_equal(a: &Vec<SyncMode>, b: &Vec<SyncMode>) -> (r: bool)
    ensures
        r == (a.deep_view() == b.deep_view()),
{
    let r: bool = lists_equal(a, b, mode_equal, Ghost(|x: SyncMode, y: SyncMode| x == y));
    assert(r ==> a.deep_view() =~= b.deep_view());
    r
}

/// Whether two sets of capabilities are equal.
pub fn capabilities_equal(a: &Capabilities, b: &Capabilities) -> (r: bool)
    ensures
        r == (a.deep_view() == b.deep_view()),
{
    versions_equal(&a.protocol_versions, &b.protocol_versions) && backends_equal(
        &a.capture_backends,
        &b.capture_backends,
    ) && modes_equal(&a.sync_modes, &b.sync_modes) && a.audio_reactive == b.audio_reactive
        && a.discovery == b.discovery && a.portal_display_selection == b.portal_display_selection
}

/// Every value is the same as itself.
pub proof fn lemma_same_area_list_reflexive(areas: Seq<EntertainmentAreaView>)
    ensures
        same_area_list(areas, areas),
{
    assert forall|i: int| 0 <= i < areas.len() implies #[trigger] same_area(areas[i], areas[i]) by {
        assert(forall|j: int|
            0 <= j < areas[i].channels.len() ==> #[trigger] same_channel(
                areas[i].channels[j],
                areas[i].channels[j],
            ));
    }
}

} // verus!
