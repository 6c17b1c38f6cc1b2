//! Lights: what a bridge reports of them, and what puts them back.
use crate::hue::bridge::{hue_error, HueError};
use crate::number::Double;
use crate::number;
use crate::text;
use vstd::prelude::*;
use vstd::std_specs::cmp::PartialEqSpecImpl;

verus! {

/// A color as a point of the chromaticity diagram.
#[derive(Clone, Copy, Debug)]
pub struct LightXy {
    pub x: Double,
    pub y: Double,
}

impl PartialEq for LightXy {
    fn eq(&self, other: &Self) -> (r: bool) {
        self.x == other.x && self.y == other.y
    }
}

impl PartialEqSpecImpl for LightXy {
    open spec fn obeys_eq_spec() -> bool {
        true
    }

    open spec fn eq_spec(&self, other: &Self) -> bool {
        &&& number::same_double(self.x.bits, other.x.bits)
        &&& number::same_double(self.y.bits, other.y.bits)
    }
}

impl DeepView for LightXy {
    type V = LightXy;

    open spec fn deep_view(&self) -> LightXy {
        *self
    }
}

/// The color temperature of a light.
#[derive(Clone, Copy, Debug, PartialEq, Eq, Structural)]
pub struct LightColorTemperature {
    pub mirek: Option<u16>,
    pub mirek_valid: bool,
}

/// The colors along a light.
#[derive(Debug, PartialEq)]
pub struct LightGradient {
    pub points: Vec<LightXy>,
    pub mode: Option<String>,
}

/// The mathematical value of [`LightGradient`].
#[verifier::ext_equal]
pub struct LightGradientView {
    pub points: Seq<LightXy>,
    pub mode: Option<Seq<char>>,
}

impl DeepView for LightGradient {
    type V = LightGradientView;

    open spec fn deep_view(&self) -> LightGradientView {
        LightGradientView {
            points: self.points.deep_view(),
            mode: self.mode.deep_view(),
        }
    }
}

impl Clone for LightGradient {
    fn clone(&self) -> (r: Self)
        ensures
            r.deep_view() == self.deep_view(),
    {
        LightGradient {
            points: self.points.clone(),
            mode: self.mode.clone(),
        }
    }
}

/// What a bridge reports of a light.
#[derive(Debug)]
pub struct LightResource {
    pub id: String,
    pub owner: Option<String>,
    pub on: bool,
    pub dimming: Option<Double>,
    pub color: Option<LightXy>,
    pub color_temperature: Option<LightColorTemperature>,
    pub gradient: Option<LightGradient>,
}

/// The mathematical value of [`LightResource`].
#[verifier::ext_equal]
pub struct LightResourceView {
    pub id: Seq<char>,
    pub owner: Option<Seq<char>>,
    pub on: bool,
    pub dimming: Option<Double>,
    pub color: Option<LightXy>,
    pub color_temperature: Option<LightColorTemperature>,
    pub gradient: Option<LightGradientView>,
}

impl DeepView for LightResource {
    type V = LightResourceView;

    open spec fn deep_view(&self) -> LightResourceView {
        LightResourceView {
            id: self.id.deep_view(),
            owner: self.owner.deep_view(),
            on: self.on,
            dimming: self.dimming,
            color: self.color,
            color_temperature: self.color_temperature,
            gradient: self.gradient.deep_view(),
        }
    }
}

impl Clone for LightResource {
    fn clone(&self) -> (r: Self)
        ensures
            r.deep_view() == self.deep_view(),
    {
        LightResource {
            id: self.id.clone(),
            owner: self.owner.clone(),
            on: self.on,
            dimming: self.dimming,
            color: self.color,
            color_temperature: self.color_temperature,
            gradient: self.gradient.clone(),
        }
    }
}

/// The part of a state that gives a light its color.
#[derive(Debug, PartialEq)]
pub enum LightAppearance {
    Unchanged,
    Gradient(LightGradient),
    Mirek(u16),
    Color(LightXy),
}

/// The mathematical value of [`LightAppearance`].
#[verifier::ext_equal]
pub enum LightAppearanceView {
    Unchanged,
    Gradient(LightGradientView),
    Mirek(u16),
    Color(LightXy),
}

impl DeepView for LightAppearance {
    type V = LightAppearanceView;

    open spec fn deep_view(&self) -> LightAppearanceView {
        match self {
            LightAppearance::Unchanged => LightAppearanceView::Unchanged,
            LightAppearance::Gradient(value) => LightAppearanceView::Gradient(value.deep_view()),
            LightAppearance::Mirek(value) => LightAppearanceView::Mirek(*value),
            LightAppearance::Color(value) => LightAppearanceView::Color(*value),
        }
    }
}

impl Clone for LightAppearance {
    fn clone(&self) -> (r: Self)
        ensures
            r.deep_view() == self.deep_view(),
    {
        match self {
            LightAppearance::Unchanged => LightAppearance::Unchanged,
            LightAppearance::Gradient(value) => LightAppearance::Gradient(value.clone()),
            LightAppearance::Mirek(value) => LightAppearance::Mirek(*value),
            LightAppearance::Color(value) => LightAppearance::Color(*value),
        }
    }
}

/// A state that can be written to a light.
#[derive(Debug, PartialEq)]
pub struct LightState {
    pub on: bool,
    pub brightness: Option<Double>,
    pub appearance: LightAppearance,
}

/// The mathematical value of [`LightState`].
#[verifier::ext_equal]
pub struct LightStateView {
    pub on: bool,
    pub brightness: Option<Double>,
    pub appearance: LightAppearanceView,
}

impl DeepView for LightState {
    type V = LightStateView;

    open spec fn deep_view(&self) -> LightStateView {
        LightStateView {
            on: self.on,
            brightness: self.brightness,
            appearance: self.appearance.deep_view(),
        }
    }
}

impl Clone for LightState {
    fn clone(&self) -> (r: Self)
        ensures
            r.deep_view() == self.deep_view(),
    {
        LightState {
            on: self.on,
            brightness: self.brightness,
            appearance: self.appearance.clone(),
        }
    }
}

/// The color that a light is put back to: its gradient if it has one, else its
/// color temperature if that is in use, else its color.
pub open spec fn restored_appearance(light: LightResourceView) -> LightAppearanceView {
    if light.gradient matches Some(gradient) && gradient.points.len() > 0 {
        LightAppearanceView::Gradient(light.gradient->Some_0)
    } else if light.color_temperature matches Some(temperature) && temperature.mirek_valid
        && temperature.mirek is Some {
        LightAppearanceView::Mirek(light.color_temperature->Some_0.mirek->Some_0)
    } else {
        match light.color {
            Some(xy) => LightAppearanceView::Color(xy),
            None => LightAppearanceView::Unchanged,
        }
    }
}

/// The state that a light is put back to.
pub open spec fn restored_state(light: LightResourceView) -> LightStateView {
    LightStateView {
        on: light.on,
        brightness: light.dimming,
        appearance: restored_appearance(light),
    }
}

impl LightResource {
    /// The state that puts the light back as it is now.
    pub fn restore_state(&self) -> (r: LightState)
        ensures
            r.deep_view() == restored_state(self.deep_view()),
    {
        LightState { on: self.on, brightness: self.dimming, appearance: self.restore_appearance() }
    }

    fn restore_appearance(&self) -> (r: LightAppearance)
        ensures
            r.deep_view() == restored_appearance(self.deep_view()),
    {
        if let Some(gradient) = &self.gradient {
            if gradient.points.len() > 0 {
                return LightAppearance::Gradient(gradient.clone());
            }
        }
        if let Some(temperature) = self.color_temperature {
            if temperature.mirek_valid {
                if let Some(mirek) = temperature.mirek {
                    return LightAppearance::Mirek(mirek);
                }
            }
        }
        match self.color {
            Some(xy) => LightAppearance::Color(xy),
            None => LightAppearance::Unchanged,
        }
    }
}

/// A light and the state that puts it back.
#[derive(Debug, PartialEq)]
pub struct LightRestore {
    pub id: String,
    pub state: LightState,
}

/// The mathematical value of [`LightRestore`].
#[verifier::ext_equal]
pub struct LightRestoreView {
    pub id: Seq<char>,
    pub state: LightStateView,
}

impl DeepView for LightRestore {
    type V = LightRestoreView;

    open spec fn deep_view(&self) -> LightRestoreView {
        LightRestoreView {
            id: self.id.deep_view(),
            state: self.state.deep_view(),
        }
    }
}

impl Clone for LightRestore {
    fn clone(&self) -> (r: Self)
        ensures
            r.deep_view() == self.deep_view(),
    {
        LightRestore {
            id: self.id.clone(),
            state: self.state.clone(),
        }
    }
}

/// The lights of an area and the states that put them back.
#[derive(Debug, PartialEq)]
pub struct LightSnapshot {
    pub lights: Vec<LightRestore>,
}

/// The mathematical value of [`LightSnapshot`].
#[verifier::ext_equal]
pub struct LightSnapshotView {
    pub lights: Seq<LightRestoreView>,
}

impl DeepView for LightSnapshot {
    type V = LightSnapshotView;

    open spec fn deep_view(&self) -> LightSnapshotView {
        LightSnapshotView {
            lights: self.lights.deep_view(),
        }
    }
}

impl Clone for LightSnapshot {
    fn clone(&self) -> (r: Self)
        ensures
            r.deep_view() == self.deep_view(),
    {
        LightSnapshot {
            lights: self.lights.clone(),
        }
    }
}

impl LightSnapshot {
    /// How many lights the snapshot holds.
    pub fn light_count(&self) -> (r: usize)
        ensures
            r == self.deep_view().lights.len(),
    {
        self.lights.len()
    }
}

/// What putting lights back came to, given how many could not be.
pub fn restore_result(failures: usize) -> (r: Result<(), HueError>)
    ensures
        r is Ok <==> failures == 0,
        r matches Err(error) ==> error@ == "could not restore "@ + text::decimal_text(
            failures as nat,
        ) + " Hue light(s)"@,
{
    if failures == 0 {
        Ok(())
    } else {
        Err(
            HueError::new(
                text::concat3(
                    "could not restore ",
                    text::decimal(failures as u64).as_str(),
                    " Hue light(s)",
                ),
            ),
        )
    }
}

/// Whether a device is connected.
#[derive(Debug, PartialEq, Eq)]
pub struct ZigbeeConnectivity {
    pub owner: String,
    pub status: String,
}

/// The mathematical value of [`ZigbeeConnectivity`].
#[verifier::ext_equal]
pub struct ZigbeeConnectivityView {
    pub owner: Seq<char>,
    pub status: Seq<char>,
}

impl DeepView for ZigbeeConnectivity {
    type V = ZigbeeConnectivityView;

    open spec fn deep_view(&self) -> ZigbeeConnectivityView {
        ZigbeeConnectivityView {
            owner: self.owner.deep_view(),
            status: self.status.deep_view(),
        }
    }
}

impl Clone for ZigbeeConnectivity {
    fn clone(&self) -> (r: Self)
        ensures
            r.deep_view() == self.deep_view(),
    {
        ZigbeeConnectivity {
            owner: self.owner.clone(),
            status: self.status.clone(),
        }
    }
}

/// An entertainment service of a device.
#[derive(Debug, PartialEq, Eq)]
pub struct EntertainmentResource {
    pub id: String,
    pub owner: Option<String>,
    pub renderer_reference: Option<String>,
}

/// The mathematical value of [`EntertainmentResource`].
#[verifier::ext_equal]
pub struct EntertainmentResourceView {
    pub id: Seq<char>,
    pub owner: Option<Seq<char>>,
    pub renderer_reference: Option<Seq<char>>,
}

impl DeepView for EntertainmentResource {
    type V = EntertainmentResourceView;

    open spec fn deep_view(&self) -> EntertainmentResourceView {
        EntertainmentResourceView {
            id: self.id.deep_view(),
            owner: self.owner.deep_view(),
            renderer_reference: self.renderer_reference.deep_view(),
        }
    }
}

impl Clone for EntertainmentResource {
    fn clone(&self) -> (r: Self)
        ensures
            r.deep_view() == self.deep_view(),
    {
        EntertainmentResource {
            id: self.id.clone(),
            owner: self.owner.clone(),
            renderer_reference: self.renderer_reference.clone(),
        }
    }
}

/// A channel of an area: its place as single-precision bit patterns, and the services that it drives.
#[derive(Debug)]
pub struct HueChannel {
    pub channel_id: u8,
    pub x: u32,
    pub y: u32,
    pub z: u32,
    pub members: Vec<String>,
}

/// The mathematical value of [`HueChannel`].
#[verifier::ext_equal]
pub struct HueChannelView {
    pub channel_id: u8,
    pub x: u32,
    pub y: u32,
    pub z: u32,
    pub members: Seq<Seq<char>>,
}

impl DeepView for HueChannel {
    type V = HueChannelView;

    open spec fn deep_view(&self) -> HueChannelView {
        HueChannelView {
            channel_id: self.channel_id,
            x: self.x,
            y: self.y,
            z: self.z,
            members: self.members.deep_view(),
        }
    }
}

impl Clone for HueChannel {
    fn clone(&self) -> (r: Self)
        ensures
            r.deep_view() == self.deep_view(),
    {
        HueChannel {
            channel_id: self.channel_id,
            x: self.x,
            y: self.y,
            z: self.z,
            members: self.members.clone(),
        }
    }
}

/// What a bridge reports of an area.
#[derive(Debug)]
pub struct EntertainmentConfiguration {
    pub id: String,
    pub name: String,
    pub status: String,
    pub active_streamer: Option<String>,
    pub channels: Vec<HueChannel>,
    pub light_services: Vec<String>,
}

/// The mathematical value of [`EntertainmentConfiguration`].
#[verifier::ext_equal]
pub struct EntertainmentConfigurationView {
    pub id: Seq<char>,
    pub name: Seq<char>,
    pub status: Seq<char>,
    pub active_streamer: Option<Seq<char>>,
    pub channels: Seq<HueChannelView>,
    pub light_services: Seq<Seq<char>>,
}

impl DeepView for EntertainmentConfiguration {
    type V = EntertainmentConfigurationView;

    open spec fn deep_view(&self) -> EntertainmentConfigurationView {
        EntertainmentConfigurationView {
            id: self.id.deep_view(),
            name: self.name.deep_view(),
            status: self.status.deep_view(),
            active_streamer: self.active_streamer.deep_view(),
            channels: self.channels.deep_view(),
            light_services: self.light_services.deep_view(),
        }
    }
}

impl Clone for EntertainmentConfiguration {
    fn clone(&self) -> (r: Self)
        ensures
            r.deep_view() == self.deep_view(),
    {
        EntertainmentConfiguration {
            id: self.id.clone(),
            name: self.name.clone(),
            status: self.status.clone(),
            active_streamer: self.active_streamer.clone(),
            channels: self.channels.clone(),
            light_services: self.light_services.clone(),
        }
    }
}

/// Whether a text is in a list.
pub open spec fn listed(list: Seq<Seq<char>>, item: Seq<char>) -> bool {
    exists|i: int| 0 <= i < list.len() && #[trigger] list[i] == item
}

/// Whether a text is in a list.
pub fn contains_text(list: &Vec<String>, item: &str) -> (r: bool)
    ensures
        r == listed(list.deep_view(), item@),
{
    let mut i: usize = 0;
    while i < list.len()
        invariant
            i <= list.len(),
            forall|j: int| 0 <= j < i ==> #[trigger] list.deep_view()[j] != item@,
        decreases list.len() - i,
    {
        assert(list.deep_view()[i as int] == list[i as int]@);
        if text::str_eq(list[i].as_str(), item) {
            return true;
        }
        i += 1;
    }
    false
}

/// Whether no text occurs twice in a list.
pub open spec fn distinct(list: Seq<Seq<char>>) -> bool {
    forall|i: int, j: int| 0 <= i < j < list.len() ==> #[trigger] list[i] != #[trigger] list[j]
}

/// Whether a list holds exactly the texts of a kind, each once.
pub open spec fn lists_exactly(list: Seq<Seq<char>>, kind: spec_fn(Seq<char>) -> bool) -> bool {
    &&& distinct(list)
    &&& forall|item: Seq<char>| #[trigger] listed(list, item) <==> kind(item)
}

fn add_once(list: &mut Vec<String>, item: &String)
    requires
        distinct(old(list).deep_view()),
    ensures
        distinct(final(list).deep_view()),
        forall|other: Seq<char>| #[trigger]
            listed(final(list).deep_view(), other) <==> listed(old(list).deep_view(), other)
                || other == item@,
{
    let ghost before = list.deep_view();
    if contains_text(list, item.as_str()) {
        return;
    }
    list.push(item.clone());
    proof {
        let after = list.deep_view();
        assert(after =~= before.push(item@));
        assert forall|other: Seq<char>| #[trigger]
            listed(after, other) <==> listed(before, other) || other == item@ by {
            if listed(before, other) {
                let i = choose|i: int| 0 <= i < before.len() && #[trigger] before[i] == other;
                assert(after[i] == other);
            }
            if other == item@ {
                assert(after[before.len() as int] == other);
            }
            if listed(after, other) {
                let i = choose|i: int| 0 <= i < after.len() && #[trigger] after[i] == other;
                if i < before.len() {
                    assert(before[i] == other);
                }
            }
        }
        assert forall|i: int, j: int| 0 <= i < j < after.len() implies #[trigger] after[i]
            != #[trigger] after[j] by {
            assert(after[i] == before[i]);
            if j < before.len() {
                assert(after[j] == before[j]);
            } else if before[i] == item@ {
                assert(listed(before, item@));
            }
        }
    }
}

/// The lights that an area names itself, each once.
pub fn named_lights(area: &EntertainmentConfiguration) -> (r: Vec<String>)
    ensures
        lists_exactly(
            r.deep_view(),
            |item: Seq<char>| listed(area.deep_view().light_services, item),
        ),
{
    let mut ids: Vec<String> = Vec::new();
    let ghost services = area.deep_view().light_services;
    let mut i: usize = 0;
    while i < area.light_services.len()
        invariant
            i <= area.light_services.len(),
            services == area.light_services.deep_view(),
            distinct(ids.deep_view()),
            forall|item: Seq<char>| #[trigger]
                listed(ids.deep_view(), item) <==> listed(services.take(i as int), item),
        decreases area.light_services.len() - i,
    {
        let ghost before = ids.deep_view();
        let ghost name = area.light_services[i as int]@;
        assert(services[i as int] == name);
        add_once(&mut ids, &area.light_services[i]);
        proof {
            lemma_listed_take(services, i as int);
        }
        i += 1;
    }
    assert(services.take(services.len() as int) =~= services);
    ids
}

/// A prefix that is one longer lists one more text.
proof fn lemma_listed_take(list: Seq<Seq<char>>, n: int)
    requires
        0 <= n < list.len(),
    ensures
        forall|item: Seq<char>| #[trigger]
            listed(list.take(n + 1), item) <==> listed(list.take(n), item) || item == list[n],
{
    let short = list.take(n);
    let long = list.take(n + 1);
    assert(long =~= short.push(list[n]));
    assert forall|item: Seq<char>| #[trigger] listed(long, item) <==> listed(short, item) || item
        == list[n] by {
        if listed(short, item) {
            let i = choose|i: int| 0 <= i < short.len() && #[trigger] short[i] == item;
            assert(long[i] == item);
        }
        if item == list[n] {
            assert(long[n] == item);
        }
        if listed(long, item) {
            let i = choose|i: int| 0 <= i < long.len() && #[trigger] long[i] == item;
            if i < n {
                assert(short[i] == item);
            }
        }
    }
}

/// Whether a service is driven by a channel of an area.
pub open spec fn drives(area: EntertainmentConfigurationView, service: Seq<char>) -> bool {
    exists|i: int|
        0 <= i < area.channels.len() && #[trigger] listed(area.channels[i].members, service)
}

/// The light of a device: the last one that it owns.
pub open spec fn light_of_owner(lights: Seq<LightResourceView>, owner: Seq<char>) -> Option<Seq<char>>
    decreases lights.len(),
{
    if lights.len() == 0 {
        None
    } else if lights.last().owner == Some(owner) {
        Some(lights.last().id)
    } else {
        light_of_owner(lights.drop_last(), owner)
    }
}

/// The light that an entertainment service leads to: the one that it refers to,
/// else the one of its device.
pub open spec fn light_of_service(
    service: EntertainmentResourceView,
    lights: Seq<LightResourceView>,
) -> Option<Seq<char>> {
    match service.renderer_reference {
        Some(light) => Some(light),
        None => match service.owner {
            Some(owner) => light_of_owner(lights, owner),
            None => None,
        },
    }
}

/// Whether a light takes part in an area through one of the first `n` services.
pub open spec fn takes_part(
    area: EntertainmentConfigurationView,
    services: Seq<EntertainmentResourceView>,
    lights: Seq<LightResourceView>,
    light: Seq<char>,
    n: int,
) -> bool {
    exists|i: int|
        0 <= i < n && drives(area, (#[trigger] services[i]).id) && light_of_service(
            services[i],
            lights,
        ) == Some(light)
}

fn find_light_of_owner(lights: &Vec<LightResource>, owner: &str) -> (r: Option<String>)
    ensures
        r.deep_view() == light_of_owner(lights.deep_view(), owner@),
{
    let ghost all = lights.deep_view();
    let mut i: usize = lights.len();
    assert(all.take(i as int) =~= all);
    while i > 0
        invariant
            i <= lights.len(),
            all == lights.deep_view(),
            light_of_owner(all, owner@) == light_of_owner(all.take(i as int), owner@),
        decreases i,
    {
        let ghost seen = all.take(i as int);
        i -= 1;
        assert(seen.last() == lights[i as int].deep_view());
        assert(seen.drop_last() =~= all.take(i as int));
        if let Some(other) = &lights[i].owner {
            if text::str_eq(other.as_str(), owner) {
                return Some(lights[i].id.clone());
            }
        }
    }
    None
}

fn find_driven(area: &EntertainmentConfiguration, service: &str) -> (r: bool)
    ensures
        r == drives(area.deep_view(), service@),
{
    let ghost channels = area.deep_view().channels;
    let mut i: usize = 0;
    while i < area.channels.len()
        invariant
            i <= area.channels.len(),
            channels == area.channels.deep_view(),
            channels == area.deep_view().channels,
            forall|j: int| 0 <= j < i ==> !#[trigger] listed(channels[j].members, service@),
        decreases area.channels.len() - i,
    {
        assert(channels[i as int] == area.channels[i as int].deep_view());
        if contains_text(&area.channels[i].members, service) {
            assert(listed(area.deep_view().channels[i as int].members, service@));
            return true;
        }
        i += 1;
    }
    false
}

/// The lights that take part in an area, resolved through its services, each once.
pub fn resolved_lights(
    area: &EntertainmentConfiguration,
    services: &Vec<EntertainmentResource>,
    lights: &Vec<LightResource>,
) -> (r: Vec<String>)
    ensures
        lists_exactly(
            r.deep_view(),
            |item: Seq<char>|
                takes_part(
                    area.deep_view(),
                    services.deep_view(),
                    lights.deep_view(),
                    item,
                    services@.len() as int,
                ),
        ),
{
    let mut ids: Vec<String> = Vec::new();
    let ghost all = services.deep_view();
    let ghost view = area.deep_view();
    let ghost known = lights.deep_view();
    let mut i: usize = 0;
    while i < services.len()
        invariant
            i <= services.len(),
            all == services.deep_view(),
            view == area.deep_view(),
            known == lights.deep_view(),
            distinct(ids.deep_view()),
            forall|item: Seq<char>| #[trigger]
                listed(ids.deep_view(), item) <==> takes_part(view, all, known, item, i as int),
        decreases services.len() - i,
    {
        let ghost before = ids.deep_view();
        assert(all[i as int] == services[i as int].deep_view());
        let mut found: Option<String> = None;
        if find_driven(area, services[i].id.as_str()) {
            found = match &services[i].renderer_reference {
                Some(light) => Some(light.clone()),
                None => match &services[i].owner {
                    Some(owner) => find_light_of_owner(lights, owner.as_str()),
                    None => None,
                },
            };
        }
        let ghost light = found.deep_view();
        if let Some(id) = &found {
            add_once(&mut ids, id);
        }
        proof {
            assert forall|item: Seq<char>| #[trigger]
                listed(ids.deep_view(), item) <==> takes_part(view, all, known, item, i + 1) by {
                assert(listed(ids.deep_view(), item) <==> listed(before, item) || light == Some(
                    item,
                ));
                if takes_part(view, all, known, item, i as int) {
                    let j = choose|j: int|
                        0 <= j < i && drives(view, (#[trigger] all[j]).id) && light_of_service(
                            all[j],
                            known,
                        ) == Some(item);
                    assert(drives(view, all[j].id));
                }
                if light == Some(item) {
                    assert(drives(view, all[i as int].id));
                }
                if takes_part(view, all, known, item, i + 1) {
                    let j = choose|j: int|
                        0 <= j < i + 1 && drives(view, (#[trigger] all[j]).id) && light_of_service(
                            all[j],
                            known,
                        ) == Some(item);
                    if j < i {
                        assert(drives(view, all[j].id));
                    }
                }
            }
        }
        i += 1;
    }
    ids
}

/// Whether the lights of an area have to be resolved: it names none itself.
pub fn needs_services(area: &EntertainmentConfiguration) -> (r: bool)
    ensures
        r == (area.deep_view().light_services.len() == 0),
{
    area.light_services.len() == 0
}

/// Whether a light takes part in an area: among those that the area names or, where
/// it names none, through its services.
pub open spec fn participates(
    area: EntertainmentConfigurationView,
    services: Seq<EntertainmentResourceView>,
    lights: Seq<LightResourceView>,
    light: Seq<char>,
) -> bool {
    if area.light_services.len() > 0 {
        listed(area.light_services, light)
    } else {
        takes_part(area, services, lights, light, services.len() as int)
    }
}

/// The lights that take part in an area, each once. The services and the lights of
/// the bridge matter only where they are needed.
pub fn participating_lights(
    area: &EntertainmentConfiguration,
    services: &Vec<EntertainmentResource>,
    lights: &Vec<LightResource>,
) -> (r: Vec<String>)
    ensures
        lists_exactly(
            r.deep_view(),
            |item: Seq<char>|
                participates(
                    area.deep_view(),
                    services.deep_view(),
                    lights.deep_view(),
                    item,
                ),
        ),
{
    if needs_services(area) {
        resolved_lights(area, services, lights)
    } else {
        named_lights(area)
    }
}

/// Whether a device is reported as not connected.
pub open spec fn unavailable(connectivity: Seq<ZigbeeConnectivityView>, device: Seq<char>) -> bool {
    exists|i: int|
        0 <= i < connectivity.len() && (#[trigger] connectivity[i]).owner == device
            && connectivity[i].status != "connected"@
}

/// Whether a light can be put back: its device, if it has one, is not reported
/// as not connected.
pub open spec fn restorable(
    connectivity: Seq<ZigbeeConnectivityView>,
    light: LightResourceView,
) -> bool {
    light.owner matches Some(device) ==> !unavailable(connectivity, device)
}

/// How many of the lights are among those that take part.
pub open spec fn matching(lights: Seq<LightResourceView>, ids: Seq<Seq<char>>) -> nat
    decreases lights.len(),
{
    if lights.len() == 0 {
        0
    } else {
        matching(lights.drop_last(), ids) + if listed(ids, lights.last().id) {
            1nat
        } else {
            0
        }
    }
}

/// The lights that take part and can be put back, with their states, in the
/// order in which the bridge reports them.
pub open spec fn restores(
    lights: Seq<LightResourceView>,
    ids: Seq<Seq<char>>,
    connectivity: Seq<ZigbeeConnectivityView>,
) -> Seq<LightRestoreView>
    decreases lights.len(),
{
    if lights.len() == 0 {
        Seq::empty()
    } else {
        let before = restores(lights.drop_last(), ids, connectivity);
        let last = lights.last();
        if listed(ids, last.id) && restorable(connectivity, last) {
            before.push(LightRestoreView { id: last.id, state: restored_state(last) })
        } else {
            before
        }
    }
}

/// Why no snapshot can be taken, if none can.
pub open spec fn snapshot_problem(
    ids: Seq<Seq<char>>,
    lights: Seq<LightResourceView>,
    connectivity: Seq<ZigbeeConnectivityView>,
) -> Option<Seq<char>> {
    if ids.len() == 0 {
        Some("Hue Entertainment area exposes no restorable lights"@)
    } else if matching(lights, ids) != ids.len() {
        Some("could not read every participating Hue light"@)
    } else if restores(lights, ids, connectivity).len() == 0 {
        Some("Hue Entertainment area has no connected lights to restore"@)
    } else {
        None
    }
}

fn find_unavailable(connectivity: &Vec<ZigbeeConnectivity>, device: &str) -> (r: bool)
    ensures
        r == unavailable(connectivity.deep_view(), device@),
{
    let ghost all = connectivity.deep_view();
    let mut i: usize = 0;
    while i < connectivity.len()
        invariant
            i <= connectivity.len(),
            all == connectivity.deep_view(),
            forall|j: int|
                0 <= j < i ==> (#[trigger] all[j]).owner != device@ || all[j].status
                    == "connected"@,
        decreases connectivity.len() - i,
    {
        assert(all[i as int] == connectivity[i as int].deep_view());
        if text::str_eq(connectivity[i].owner.as_str(), device) && !text::str_eq(
            connectivity[i].status.as_str(),
            "connected",
        ) {
            return true;
        }
        i += 1;
    }
    false
}

/// Refuses an area without lights that could be put back.
pub fn require_lights(ids: &Vec<String>) -> (r: Result<(), HueError>)
    ensures
        r is Ok <==> ids@.len() > 0,
        r matches Err(error) ==> error@ == "Hue Entertainment area exposes no restorable lights"@,
{
    if ids.len() == 0 {
        Err(hue_error("Hue Entertainment area exposes no restorable lights"))
    } else {
        Ok(())
    }
}

/// Takes the states of the lights that take part. All of them have to be
/// reported; those whose devices are not connected are left out, but not all.
pub fn take_snapshot(
    ids: &Vec<String>,
    lights: &Vec<LightResource>,
    connectivity: &Vec<ZigbeeConnectivity>,
) -> (r: Result<LightSnapshot, HueError>)
    ensures
        r is Ok <==> snapshot_problem(
            ids.deep_view(),
            lights.deep_view(),
            connectivity.deep_view(),
        ) is None,
        r matches Ok(snapshot) ==> snapshot.deep_view().lights == restores(
            lights.deep_view(),
            ids.deep_view(),
            connectivity.deep_view(),
        ),
        r matches Err(error) ==> Some(error@) == snapshot_problem(
            ids.deep_view(),
            lights.deep_view(),
            connectivity.deep_view(),
        ),
{
    match require_lights(ids) {
        Ok(()) => {},
        Err(error) => return Err(error),
    }
    let ghost all = lights.deep_view();
    let ghost wanted = ids.deep_view();
    let ghost reports = connectivity.deep_view();
    let mut count: usize = 0;
    let mut kept: Vec<LightRestore> = Vec::new();
    let mut i: usize = 0;
    assert(kept.deep_view() =~= restores(all.take(0), wanted, reports));
    while i < lights.len()
        invariant
            i <= lights.len(),
            all == lights.deep_view(),
            wanted == ids.deep_view(),
            reports == connectivity.deep_view(),
            count <= i,
            count == matching(all.take(i as int), wanted),
            kept.deep_view() == restores(all.take(i as int), wanted, reports),
        decreases lights.len() - i,
    {
        let ghost before = kept.deep_view();
        proof {
            let seen = all.take(i + 1);
            assert(seen.drop_last() =~= all.take(i as int));
            assert(seen.last() == lights[i as int].deep_view());
        }
        if contains_text(ids, lights[i].id.as_str()) {
            count += 1;
            let usable: bool = match &lights[i].owner {
                Some(device) => !find_unavailable(connectivity, device.as_str()),
                None => true,
            };
            if usable {
                kept.push(
                    LightRestore { id: lights[i].id.clone(), state: lights[i].restore_state() },
                );
                assert(kept.deep_view() =~= before.push(kept@.last().deep_view()));
            }
        }
        i += 1;
    }
    assert(all.take(all.len() as int) =~= all);
    if count != ids.len() {
        return Err(hue_error("could not read every participating Hue light"));
    }
    if kept.len() == 0 {
        return Err(hue_error("Hue Entertainment area has no connected lights to restore"));
    }
    Ok(LightSnapshot { lights: kept })
}

/// Every light of a snapshot takes part in the area, is reported by the bridge,
/// can be put back, and carries its own state.
pub proof fn law_snapshot_holds_only_participating_lights(
    ids: Seq<Seq<char>>,
    lights: Seq<LightResourceView>,
    connectivity: Seq<ZigbeeConnectivityView>,
    i: int,
)
    requires
        0 <= i < restores(lights, ids, connectivity).len(),
    ensures
        ({
            let restore = restores(lights, ids, connectivity)[i];
            &&& listed(ids, restore.id)
            &&& exists|j: int|
                0 <= j < lights.len() && restorable(connectivity, #[trigger] lights[j])
                    && restore == (LightRestoreView {
                    id: lights[j].id,
                    state: restored_state(lights[j]),
                })
        }),
    decreases lights.len(),
{
    let shorter = lights.drop_last();
    let before = restores(shorter, ids, connectivity);
    if i < before.len() {
        law_snapshot_holds_only_participating_lights(ids, shorter, connectivity, i);
        let j = choose|j: int|
            0 <= j < shorter.len() && restorable(connectivity, #[trigger] shorter[j]) && before[i]
                == (LightRestoreView { id: shorter[j].id, state: restored_state(shorter[j]) });
        assert(lights[j] == shorter[j]);
        assert(restores(lights, ids, connectivity)[i] == before[i]);
    } else {
        assert(lights[lights.len() - 1] == lights.last());
    }
}

/// No participating light whose device is connected is missing from a snapshot.
pub proof fn law_snapshot_misses_no_connected_light(
    ids: Seq<Seq<char>>,
    lights: Seq<LightResourceView>,
    connectivity: Seq<ZigbeeConnectivityView>,
    j: int,
)
    requires
        0 <= j < lights.len(),
        listed(ids, lights[j].id),
        restorable(connectivity, lights[j]),
    ensures
        exists|i: int|
            0 <= i < restores(lights, ids, connectivity).len() && #[trigger] restores(
                lights,
                ids,
                connectivity,
            )[i] == (LightRestoreView { id: lights[j].id, state: restored_state(lights[j]) }),
    decreases lights.len(),
{
    let shorter = lights.drop_last();
    let before = restores(shorter, ids, connectivity);
    let all = restores(lights, ids, connectivity);
    if j < lights.len() - 1 {
        law_snapshot_misses_no_connected_light(ids, shorter, connectivity, j);
        let i = choose|i: int|
            0 <= i < before.len() && #[trigger] before[i] == (LightRestoreView {
                id: shorter[j].id,
                state: restored_state(shorter[j]),
            });
        assert(all[i] == before[i]);
    } else {
        assert(all[all.len() - 1] == all.last());
    }
}

} // verus!
