//! What lights, areas, packets and bridges come to, in terms of what a bridge reports
//! and what is sent to it.
use crate::encoding;
use crate::hue::area;
use crate::hue::bridge::{
    BridgeCandidateView, CloudBridgeView, HueError, IpAddress, ServiceRecordView,
};
use crate::hue::bridge;
use crate::hue::control::{ControlMethod, ControlResponse, RequestBodyView};
use crate::hue::control;
use crate::hue::credentials::RegisterResponse;
use crate::hue::credentials;
use crate::hue::light::{
    EntertainmentConfigurationView, EntertainmentResourceView, LightAppearanceView,
    LightResourceView, LightRestoreView, LightSnapshotView, ZigbeeConnectivityView,
};
use crate::hue::light;
use crate::hue::opening::{OpenEventView, OpenPhase, OpenStepView, OpeningView};
use crate::hue::opening;
use crate::hue::restore::RestorationView;
use crate::hue::restore;
use crate::hue::stream::ChannelColor;
use crate::hue::stream;
use vstd::prelude::*;

verus! {

/// A light is put back on exactly where it was on, with the brightness that it had. Its
/// color is its gradient, else the color temperature that was in force, else its color.
pub proof fn law_light_is_put_back_as_it_was(light: LightResourceView)
    ensures
        ({
            let state = light::restored_state(light);
            let graded = light.gradient is Some && light.gradient->Some_0.points.len() > 0;
            let tempered = light.color_temperature is Some
                && light.color_temperature->Some_0.mirek_valid
                && light.color_temperature->Some_0.mirek is Some;
            &&& state.on == light.on
            &&& state.brightness == light.dimming
            &&& graded ==> state.appearance == LightAppearanceView::Gradient(
                light.gradient->Some_0,
            )
            &&& !graded && tempered ==> state.appearance == LightAppearanceView::Mirek(
                light.color_temperature->Some_0.mirek->Some_0,
            )
            &&& !graded && !tempered && light.color is Some ==> state.appearance
                == LightAppearanceView::Color(light.color->Some_0)
            &&& !graded && !tempered && light.color is None ==> state.appearance
                == LightAppearanceView::Unchanged
        }),
{
}

/// Whether a light is asked for and no report says that its device is not connected.
pub open spec fn put_back(
    ids: Seq<Seq<char>>,
    connectivity: Seq<ZigbeeConnectivityView>,
    light: LightResourceView,
) -> bool {
    &&& exists|k: int| 0 <= k < ids.len() && #[trigger] ids[k] == light.id
    &&& forall|k: int|
        0 <= k < connectivity.len() && Some((#[trigger] connectivity[k]).owner) == light.owner
            ==> connectivity[k].status == "connected"@
}

/// Whether a restore carries what was reported of a light.
pub open spec fn carries(restore: LightRestoreView, light: LightResourceView) -> bool {
    &&& restore.id == light.id
    &&& restore.state.on == light.on
    &&& restore.state.brightness == light.dimming
    &&& restore.state.appearance == light::restored_state(light).appearance
}

/// Every restore of a snapshot is that of a reported light that is asked for and
/// connected, and carries the state that was reported.
pub proof fn law_snapshot_carries_reported_states(
    ids: Seq<Seq<char>>,
    lights: Seq<LightResourceView>,
    connectivity: Seq<ZigbeeConnectivityView>,
    i: int,
)
    requires
        0 <= i < light::restores(lights, ids, connectivity).len(),
    ensures
        exists|j: int|
            0 <= j < lights.len() && #[trigger] put_back(ids, connectivity, lights[j]) && carries(
                light::restores(lights, ids, connectivity)[i],
                lights[j],
            ),
    decreases lights.len(),
{
    let shorter = lights.drop_last();
    let before = light::restores(shorter, ids, connectivity);
    let all = light::restores(lights, ids, connectivity);
    if i < before.len() {
        law_snapshot_carries_reported_states(ids, shorter, connectivity, i);
        let j = choose|j: int|
            0 <= j < shorter.len() && #[trigger] put_back(ids, connectivity, shorter[j])
                && carries(before[i], shorter[j]);
        assert(lights[j] == shorter[j]);
        assert(all[i] == before[i]);
        assert(put_back(ids, connectivity, lights[j]));
    } else {
        let j = lights.len() - 1;
        assert(lights[j] == lights.last());
        lemma_put_back(ids, connectivity, lights[j]);
    }
}

proof fn lemma_put_back(
    ids: Seq<Seq<char>>,
    connectivity: Seq<ZigbeeConnectivityView>,
    light: LightResourceView,
)
    ensures
        put_back(ids, connectivity, light) <==> light::listed(ids, light.id) && light::restorable(
            connectivity,
            light,
        ),
{
}

/// Every reported light that is asked for and connected is put back by a snapshot, in
/// the state that was reported.
pub proof fn law_snapshot_puts_every_light_back(
    ids: Seq<Seq<char>>,
    lights: Seq<LightResourceView>,
    connectivity: Seq<ZigbeeConnectivityView>,
    j: int,
)
    requires
        0 <= j < lights.len(),
        put_back(ids, connectivity, lights[j]),
    ensures
        exists|i: int|
            0 <= i < light::restores(lights, ids, connectivity).len() && #[trigger] carries(
                light::restores(lights, ids, connectivity)[i],
                lights[j],
            ),
    decreases lights.len(),
{
    let shorter = lights.drop_last();
    let before = light::restores(shorter, ids, connectivity);
    let all = light::restores(lights, ids, connectivity);
    lemma_put_back(ids, connectivity, lights[j]);
    if j < lights.len() - 1 {
        assert(shorter[j] == lights[j]);
        law_snapshot_puts_every_light_back(ids, shorter, connectivity, j);
        let i = choose|i: int| 0 <= i < before.len() && #[trigger] carries(before[i], shorter[j]);
        assert(all[i] == before[i]);
        assert(carries(all[i], lights[j]));
    } else {
        assert(carries(all[all.len() - 1], lights[j]));
    }
}

/// Lights are put back in the order in which they were reported, none twice.
pub proof fn law_snapshot_keeps_the_order(
    ids: Seq<Seq<char>>,
    lights: Seq<LightResourceView>,
    more: LightResourceView,
    connectivity: Seq<ZigbeeConnectivityView>,
)
    ensures
        ({
            let before = light::restores(lights, ids, connectivity);
            let after = light::restores(lights.push(more), ids, connectivity);
            &&& after.len() == before.len() + if put_back(ids, connectivity, more) {
                1int
            } else {
                0
            }
            &&& forall|i: int| 0 <= i < before.len() ==> #[trigger] after[i] == before[i]
            &&& light::restores(Seq::empty(), ids, connectivity).len() == 0
        }),
{
    assert(lights.push(more).drop_last() =~= lights);
    lemma_put_back(ids, connectivity, more);
}

/// A snapshot is taken exactly where lights are asked for, as many reported lights are
/// asked for as that, and one of them is put back.
pub proof fn law_snapshot_is_taken_iff_all_is_read(
    ids: Seq<Seq<char>>,
    lights: Seq<LightResourceView>,
    connectivity: Seq<ZigbeeConnectivityView>,
)
    ensures
        light::snapshot_problem(ids, lights, connectivity) is None <==> {
            &&& ids.len() > 0
            &&& light::matching(lights, ids) == ids.len()
            &&& exists|j: int|
                0 <= j < lights.len() && #[trigger] put_back(ids, connectivity, lights[j])
        },
{
    let all = light::restores(lights, ids, connectivity);
    if all.len() > 0 {
        law_snapshot_carries_reported_states(ids, lights, connectivity, 0);
    }
    if exists|j: int| 0 <= j < lights.len() && #[trigger] put_back(ids, connectivity, lights[j]) {
        let j = choose|j: int|
            0 <= j < lights.len() && #[trigger] put_back(ids, connectivity, lights[j]);
        law_snapshot_puts_every_light_back(ids, lights, connectivity, j);
    }
}

/// A reported light counts as read exactly where it is asked for.
pub proof fn law_lights_that_are_asked_for_are_counted(
    ids: Seq<Seq<char>>,
    lights: Seq<LightResourceView>,
    more: LightResourceView,
)
    ensures
        light::matching(Seq::empty(), ids) == 0,
        light::matching(lights.push(more), ids) == light::matching(lights, ids) + if (exists|k: int|
            0 <= k < ids.len() && #[trigger] ids[k] == more.id) {
            1nat
        } else {
            0nat
        },
{
    assert(lights.push(more).drop_last() =~= lights);
}

/// The light of a device is one that it owns, the last that is reported, and there is
/// none only where it owns none.
pub proof fn law_light_of_a_device_is_its_own(lights: Seq<LightResourceView>, owner: Seq<char>)
    ensures
        light::light_of_owner(lights, owner) matches Some(id) ==> exists|j: int|
            0 <= j < lights.len() && (#[trigger] lights[j]).owner == Some(owner) && lights[j].id
                == id && forall|k: int|
                j < k < lights.len() ==> (#[trigger] lights[k]).owner != Some(owner),
        light::light_of_owner(lights, owner) is None ==> forall|j: int|
            0 <= j < lights.len() ==> (#[trigger] lights[j]).owner != Some(owner),
    decreases lights.len(),
{
    if lights.len() > 0 {
        let shorter = lights.drop_last();
        law_light_of_a_device_is_its_own(shorter, owner);
        assert(lights[lights.len() - 1] == lights.last());
        if lights.last().owner != Some(owner) {
            if light::light_of_owner(shorter, owner) is Some {
                let id = light::light_of_owner(shorter, owner)->Some_0;
                let j = choose|j: int|
                    0 <= j < shorter.len() && (#[trigger] shorter[j]).owner == Some(owner)
                        && shorter[j].id == id && forall|k: int|
                        j < k < shorter.len() ==> (#[trigger] shorter[k]).owner != Some(owner);
                assert(lights[j] == shorter[j]);
                assert forall|k: int| j < k < lights.len() implies (#[trigger] lights[k]).owner
                    != Some(owner) by {
                    if k < shorter.len() {
                        assert(shorter[k] == lights[k]);
                    }
                }
            } else {
                assert forall|k: int| 0 <= k < lights.len() implies (#[trigger] lights[k]).owner
                    != Some(owner) by {
                    if k < shorter.len() {
                        assert(shorter[k] == lights[k]);
                    }
                }
            }
        }
    }
}

/// The lights of an area are those that it names. Where it names none, they are those
/// that the services of its channels refer to, or else the lights of their devices.
pub proof fn law_lights_of_an_area(
    area: EntertainmentConfigurationView,
    services: Seq<EntertainmentResourceView>,
    lights: Seq<LightResourceView>,
    id: Seq<char>,
)
    ensures
        area.light_services.len() > 0 ==> (light::participates(area, services, lights, id)
            <==> exists|k: int|
            0 <= k < area.light_services.len() && #[trigger] area.light_services[k] == id),
        area.light_services.len() == 0 ==> (light::participates(area, services, lights, id)
            <==> exists|i: int|
            0 <= i < services.len() && leads_to(#[trigger] services[i], area, lights, id)),
{
    if area.light_services.len() == 0 {
        assert forall|i: int| 0 <= i < services.len() implies (leads_to(
            #[trigger] services[i],
            area,
            lights,
            id,
        ) <==> light::drives(area, services[i].id) && light::light_of_service(services[i], lights)
            == Some(id)) by {
            lemma_driven(area, services[i].id);
        }
    }
}

/// Whether a service is a member of a channel of an area.
pub open spec fn is_member(area: EntertainmentConfigurationView, service: Seq<char>) -> bool {
    exists|c: int, m: int|
        0 <= c < area.channels.len() && 0 <= m < area.channels[c].members.len()
            && #[trigger] area.channels[c].members[m] == service
}

/// Whether a service of an area leads to a light.
pub open spec fn leads_to(
    service: EntertainmentResourceView,
    area: EntertainmentConfigurationView,
    lights: Seq<LightResourceView>,
    id: Seq<char>,
) -> bool {
    &&& is_member(area, service.id)
    &&& service.renderer_reference is Some ==> service.renderer_reference == Some(id)
    &&& service.renderer_reference is None ==> service.owner is Some && light::light_of_owner(
        lights,
        service.owner->Some_0,
    ) == Some(id)
}

proof fn lemma_driven(area: EntertainmentConfigurationView, service: Seq<char>)
    ensures
        light::drives(area, service) <==> is_member(area, service),
{
    if light::drives(area, service) {
        let c = choose|c: int|
            0 <= c < area.channels.len() && #[trigger] light::listed(
                area.channels[c].members,
                service,
            );
        let m = choose|m: int|
            0 <= m < area.channels[c].members.len() && #[trigger] area.channels[c].members[m]
                == service;
        assert(area.channels[c].members[m] == service);
    }
    if is_member(area, service) {
        let (c, m) = choose|c: int, m: int|
            0 <= c < area.channels.len() && 0 <= m < area.channels[c].members.len()
                && #[trigger] area.channels[c].members[m] == service;
        assert(light::listed(area.channels[c].members, service));
    }
}

/// A list of lights holds what it is to hold, each once, and nothing else.
pub proof fn law_list_holds_each_once(
    list: Seq<Seq<char>>,
    wanted: spec_fn(Seq<char>) -> bool,
    item: Seq<char>,
)
    requires
        light::lists_exactly(list, wanted),
    ensures
        wanted(item) <==> exists|k: int| 0 <= k < list.len() && #[trigger] list[k] == item,
        forall|i: int, j: int|
            0 <= i < j < list.len() ==> #[trigger] list[i] != #[trigger] list[j],
{
    assert(light::listed(list, item) <==> wanted(item));
}

/// An area in brief tells its own identifier, name and streamer, whether it is active,
/// and how many channels it has, as far as the number fits.
pub proof fn law_summary_tells_of_the_area(area: EntertainmentConfigurationView)
    ensures
        ({
            let brief = area::area_summary(area);
            &&& brief.id == area.id
            &&& brief.name == area.name
            &&& brief.active_streamer == area.active_streamer
            &&& brief.active <==> area.status == "active"@
            &&& area.channels.len() <= 0xffff ==> brief.channels == area.channels.len()
            &&& area.channels.len() > 0xffff ==> brief.channels == 0xffff
        }),
{
}

/// A stream is opened exactly to an area that is not active and has channels.
pub proof fn law_only_idle_areas_with_channels_are_opened(area: EntertainmentConfigurationView)
    ensures
        area::open_problem(area) is None <==> area.status != "active"@ && area.channels.len() > 0,
{
}

/// A stream that is connected is handed over with the lights that were read before the
/// area was started, where they are to be put back, and with none elsewhere.
pub proof fn law_connected_stream_is_handed_over(
    restore_on_stop: bool,
    area: EntertainmentConfigurationView,
    snapshot: LightSnapshotView,
)
    requires
        area.status != "active"@,
        area.channels.len() > 0,
    ensures
        ({
            let begun = opening::begun(restore_on_stop);
            let (read, first) = opening::advanced(begun, OpenEventView::AreaRead(area));
            let (taken, second) = opening::advanced(read, OpenEventView::SnapshotTaken(snapshot));
            let (started, third) = opening::advanced(taken, OpenEventView::Started);
            let (_, last) = opening::advanced(started, OpenEventView::Connected);
            &&& first == OpenStepView::TakeSnapshot
            &&& second == OpenStepView::Start
            &&& third == OpenStepView::Connect
            &&& restore_on_stop ==> last == OpenStepView::Deliver(Some(snapshot))
            &&& !restore_on_stop ==> last == OpenStepView::Deliver(None)
        }),
{
}

/// A failure after an area may have been started cleans up its lights and is told; one
/// before is only told. An abandoned opening leaves the same behind.
pub proof fn law_failed_opening_cleans_up(opening: OpeningView, error: Seq<char>)
    ensures
        ({
            let (after, step) = opening::advanced(opening, OpenEventView::Failed(error));
            &&& after.phase is Over
            &&& match opening.phase {
                OpenPhase::ReadingArea => step == OpenStepView::Refuse(error)
                    && opening::left_behind(opening) is None,
                OpenPhase::TakingSnapshot => step == OpenStepView::Refuse(error)
                    && opening::left_behind(opening) is None,
                OpenPhase::Starting(snapshot) => step == (OpenStepView::CleanUp {
                    snapshot: Some(snapshot),
                    error,
                }) && opening::left_behind(opening) == Some(snapshot),
                OpenPhase::Connecting(snapshot) => step == (OpenStepView::CleanUp {
                    snapshot: Some(snapshot),
                    error,
                }) && opening::left_behind(opening) == Some(snapshot),
                OpenPhase::Over => step == OpenStepView::Wait && opening::left_behind(opening)
                    is None,
            }
        }),
{
}

/// A packet is the name of its format, version two, its sequence number, its area as
/// text, and for each color the channel and the three components, high byte first.
pub proof fn law_packet_holds_its_colors(
    area: u128,
    sequence: u8,
    colors: Seq<ChannelColor>,
    i: int,
)
    requires
        0 <= i < colors.len(),
    ensures
        ({
            let packet = stream::packet_bytes(area, sequence, colors);
            let at = 52 + 7 * i;
            &&& packet.len() == 52 + 7 * colors.len()
            &&& packet.subrange(0, 9) == seq![
                'H' as u8,
                'u' as u8,
                'e' as u8,
                'S' as u8,
                't' as u8,
                'r' as u8,
                'e' as u8,
                'a' as u8,
                'm' as u8,
            ]
            &&& packet[9] == 2 && packet[10] == 0
            &&& packet[11] == sequence
            &&& packet[12] == 0 && packet[13] == 0 && packet[14] == 0 && packet[15] == 0
            &&& packet.subrange(16, 52) == vstd::utf8::encode_utf8(encoding::uuid_text(area))
            &&& packet[at] == colors[i].channel_id
            &&& 256 * packet[at + 1] + packet[at + 2] == colors[i].red
            &&& 256 * packet[at + 3] + packet[at + 4] == colors[i].green
            &&& 256 * packet[at + 5] + packet[at + 6] == colors[i].blue
        }),
{
    stream::law_packet_layout(area, sequence, colors, i);
    encoding::lemma_uuid_text_is_ascii(area);
    let packet = stream::packet_bytes(area, sequence, colors);
    let at = 52 + 7 * i;
    let part = packet.subrange(at, at + 7);
    assert(part == stream::color_bytes(colors[i]));
    assert(forall|k: int| 0 <= k < 7 ==> #[trigger] part[k] == packet[at + k]);
    assert(part[0] == packet[at] && part[1] == packet[at + 1] && part[2] == packet[at + 2]
        && part[3] == packet[at + 3] && part[4] == packet[at + 4] && part[5] == packet[at + 5]
        && part[6] == packet[at + 6]);
    assert(packet.subrange(16, 52) =~= vstd::utf8::encode_utf8(encoding::uuid_text(area)));
    assert(packet.subrange(0, 9) =~= stream::packet_name());
}

/// A packet is made exactly of an area that is a UUID and of colors of which no two are
/// for one channel.
pub proof fn law_packet_needs_different_channels(area_id: Seq<char>, colors: Seq<ChannelColor>)
    ensures
        stream::packet_problem(area_id, colors) is None <==> encoding::uuid_value(area_id) is Some
            && forall|i: int, j: int|
            0 <= i < j < colors.len() ==> (#[trigger] colors[i]).channel_id != (
            #[trigger] colors[j]).channel_id,
{
}

/// Keys are accepted exactly where both are given and the second is made of pairs of
/// hexadecimal digits.
pub proof fn law_keys_are_accepted_iff_usable(application_key: Seq<char>, client_key: Seq<char>)
    ensures
        credentials::credentials_problem(application_key, client_key) is None <==> {
            &&& application_key.len() > 0
            &&& client_key.len() > 0
            &&& client_key.len() % 2 == 0
            &&& forall|i: int|
                0 <= i < client_key.len() ==> ('0' <= #[trigger] client_key[i] <= '9') || ('a'
                    <= client_key[i] <= 'f') || ('A' <= client_key[i] <= 'F')
        },
{
    if credentials::credentials_problem(application_key, client_key) is None {
        assert forall|i: int| 0 <= i < client_key.len() implies ('0' <= #[trigger] client_key[i]
            <= '9') || ('a' <= client_key[i] <= 'f') || ('A' <= client_key[i] <= 'F') by {
            assert(encoding::is_hex_char(client_key[i]));
        }
    }
}

/// Only the first answer to a registration counts: it is accepted where it grants usable
/// keys or asks for the link button.
pub proof fn law_first_answer_decides_a_registration(entries: Seq<RegisterResponse>)
    ensures
        credentials::registration_problem(entries) is None <==> entries.len() > 0 && match entries[0] {
            RegisterResponse::Success { username, clientkey } => credentials::credentials_problem(
                username@,
                clientkey@,
            ) is None,
            RegisterResponse::Error { error_type } => error_type == 101,
        },
{
}

/// Reading asks for a path with a key and nothing else, and putting a light back sends
/// the state that was kept for it to that light.
pub proof fn law_requests_carry_what_they_are_for(
    path: Seq<char>,
    light: LightRestoreView,
    key: Seq<char>,
)
    ensures
        ({
            let read = control::get_view(path, key);
            let put = control::restore_view(light, key);
            &&& read.method == ControlMethod::Get
            &&& read.path == path
            &&& read.application_key == Some(key)
            &&& read.body is None
            &&& put.method == ControlMethod::Put
            &&& put.path == "/clip/v2/resource/light/"@ + light.id
            &&& put.application_key == Some(key)
            &&& put.body == Some(RequestBodyView::Light(light.state))
        }),
{
    reveal_strlit("/clip/v2/resource/light/");
    reveal_strlit("/clip/v2/resource/");
    reveal_strlit("light");
    reveal_strlit("/");
    assert(control::restore_view(light, key).path =~= "/clip/v2/resource/light/"@ + light.id);
}

/// The path of a resource tells its kind and its identifier, one after the other.
pub proof fn law_paths_tell_kind_and_identifier(kind: Seq<char>, id: Seq<char>)
    ensures
        ({
            let all = control::resources_path(kind);
            let one = control::resource_path(kind, id);
            &&& all.subrange(0, 18) == "/clip/v2/resource/"@
            &&& all.subrange(18, all.len() as int) == kind
            &&& one.subrange(0, all.len() as int) == all
            &&& one.len() == all.len() + 1 + id.len()
            &&& one[all.len() as int] == '/'
            &&& one.subrange(all.len() as int + 1, one.len() as int) == id
        }),
{
    reveal_strlit("/clip/v2/resource/");
    reveal_strlit("/");
    let all = control::resources_path(kind);
    let one = control::resource_path(kind, id);
    assert(all.subrange(0, 18) =~= "/clip/v2/resource/"@);
    assert(all.subrange(18, all.len() as int) =~= kind);
    assert(one.subrange(0, all.len() as int) =~= all);
    assert(one.subrange(all.len() as int + 1, one.len() as int) =~= id);
}

/// A path is accepted exactly where it begins with a slash and no two dots follow each
/// other in it.
pub proof fn law_paths_do_not_climb(path: Seq<char>)
    ensures
        control::valid_path(path) <==> path.len() > 0 && path[0] == '/' && forall|i: int, j: int|
            0 <= i < path.len() && j == i + 1 && j < path.len() && #[trigger] path[i] == '.' ==> (
            #[trigger] path[j]) != '.',
{
    if control::valid_path(path) {
        assert forall|i: int, j: int|
            0 <= i < path.len() && j == i + 1 && j < path.len() && #[trigger] path[i] == '.' implies (
        #[trigger] path[j]) != '.' by {
            assert(!control::double_dot(path, i));
        }
    }
    if path.len() > 0 && path[0] == '/' && (forall|i: int, j: int|
        0 <= i < path.len() && j == i + 1 && j < path.len() && #[trigger] path[i] == '.' ==> (
        #[trigger] path[j]) != '.') {
        assert forall|i: int| 0 <= i < path.len() - 1 implies !control::double_dot(path, i) by {
            if path[i] == '.' {
                assert(path[i + 1] != '.');
            }
        }
    }
}

/// An answer that does not say that the bridge is busy ends a request, and nothing else
/// does before its last try.
pub proof fn law_only_busy_bridges_are_asked_again<B>(
    tries: Seq<Result<ControlResponse<B>, HueError>>,
)
    ensures
        control::final_try(tries) <==> tries.len() > 0 && tries.last() is Ok && ({
            let status = tries.last()->Ok_0.status;
            status != 429 && status != 502 && status != 503 && status != 504
        }),
{
}

/// A request comes to its last answer; where it has none, to its last error.
pub proof fn law_request_comes_to_its_last_answer<B>(
    tries: Seq<Result<ControlResponse<B>, HueError>>,
    i: int,
)
    requires
        0 <= i < tries.len(),
        forall|j: int| i < j < tries.len() ==> (#[trigger] tries[j]) is Err,
    ensures
        tries[i] is Ok ==> control::settled(tries) == tries[i],
        i == 0 && tries[0] is Err ==> control::settled(tries) == tries.last(),
    decreases tries.len(),
{
    lemma_last_response(tries, i);
}

proof fn lemma_last_response<B>(tries: Seq<Result<ControlResponse<B>, HueError>>, i: int)
    requires
        0 <= i < tries.len(),
        forall|j: int| i < j < tries.len() ==> (#[trigger] tries[j]) is Err,
    ensures
        tries[i] matches Ok(response) ==> control::last_response(tries) == Some(response),
        i == 0 && tries[0] is Err ==> control::last_response(tries) is None,
    decreases tries.len(),
{
    assert(tries.last() == tries[tries.len() - 1]);
    if i < tries.len() - 1 {
        let shorter = tries.drop_last();
        assert forall|j: int| i < j < shorter.len() implies (#[trigger] shorter[j]) is Err by {
            assert(shorter[j] == tries[j]);
        }
        assert(shorter[i] == tries[i]);
        lemma_last_response(shorter, i);
    } else if i == 0 {
        assert(tries.drop_last() =~= Seq::empty());
        assert(control::last_response(tries.drop_last()) is None);
    }
}

/// An identifier of a bridge is sixteen hexadecimal digits in either case.
pub proof fn law_bridge_identifier_is_sixteen_digits(id: Seq<char>)
    ensures
        bridge::is_bridge_id(id) <==> id.len() == 16 && forall|i: int|
            0 <= i < id.len() ==> ('0' <= #[trigger] id[i] <= '9') || ('a' <= id[i] <= 'f') || ('A'
                <= id[i] <= 'F'),
{
    if bridge::is_bridge_id(id) {
        assert forall|i: int| 0 <= i < id.len() implies ('0' <= #[trigger] id[i] <= '9') || ('a'
            <= id[i] <= 'f') || ('A' <= id[i] <= 'F') by {
            assert(encoding::is_hex_char(id[i]));
        }
    }
}

/// Two identifiers are those of one bridge exactly where they are the same digits up to
/// case.
pub proof fn law_identity_ignores_case(expected: Seq<char>, actual: Seq<char>)
    requires
        bridge::is_bridge_id(expected),
        bridge::is_bridge_id(actual),
    ensures
        bridge::identity_problem(expected, actual) is None <==> forall|i: int|
            #![trigger expected[i]]
            0 <= i < 16 ==> encoding::hex_value(expected[i]) == encoding::hex_value(actual[i]),
        bridge::identity_problem(expected, expected) is None,
{
    let a = crate::text::ascii_lower_text(expected);
    let b = crate::text::ascii_lower_text(actual);
    assert forall|i: int| 0 <= i < 16 implies (encoding::hex_value(#[trigger] expected[i])
        == encoding::hex_value(actual[i]) <==> a[i] == b[i]) by {
        assert(encoding::is_hex_char(expected[i]) && encoding::is_hex_char(actual[i]));
    }
    if a == b {
        assert forall|i: int|
            #![trigger expected[i]]
            0 <= i < 16 implies encoding::hex_value(expected[i]) == encoding::hex_value(
            actual[i],
        ) by {
            assert(a[i] == b[i]);
        }
    }
    if forall|i: int|
        #![trigger expected[i]]
        0 <= i < 16 ==> encoding::hex_value(expected[i]) == encoding::hex_value(actual[i]) {
        assert forall|i: int| 0 <= i < 16 implies a[i] == b[i] by {
            assert(encoding::hex_value(expected[i]) == encoding::hex_value(actual[i]));
        }
        assert(a =~= b);
    }
}

/// A bridge is used exactly where its identifier is one and its address is neither
/// unspecified nor that of a group.
pub proof fn law_candidate_is_used_iff_it_can_be_reached(candidate: BridgeCandidateView)
    ensures
        bridge::candidate_problem(candidate) is None <==> bridge::is_bridge_id(candidate.id)
            && match candidate.address {
            IpAddress::V4(a) => !(a[0] == 0 && a[1] == 0 && a[2] == 0 && a[3] == 0) && !(224 <= a[0]
                <= 239),
            IpAddress::V6(a) => !(a[0] == 0 && a[1] == 0 && a[2] == 0 && a[3] == 0 && a[4] == 0
                && a[5] == 0 && a[6] == 0 && a[7] == 0) && a[0] < 0xff00,
        },
{
    match candidate.address {
        IpAddress::V4(a) => {
            let zeros = seq![0u8, 0u8, 0u8, 0u8];
            if a[0] == 0 && a[1] == 0 && a[2] == 0 && a[3] == 0 {
                assert(a@ =~= zeros);
            }
            if a@ == zeros {
                assert(a@[0] == zeros[0] && a@[1] == zeros[1] && a@[2] == zeros[2] && a@[3]
                    == zeros[3]);
            }
        },
        IpAddress::V6(a) => {
            let zeros = seq![0u16, 0u16, 0u16, 0u16, 0u16, 0u16, 0u16, 0u16];
            if a[0] == 0 && a[1] == 0 && a[2] == 0 && a[3] == 0 && a[4] == 0 && a[5] == 0 && a[6]
                == 0 && a[7] == 0 {
                assert(a@ =~= zeros);
            }
            if a@ == zeros {
                assert(forall|i: int| 0 <= i < 8 ==> a@[i] == zeros[i]);
                assert(a@[0] == 0 && a@[1] == 0 && a@[2] == 0 && a@[3] == 0 && a@[4] == 0 && a@[5]
                    == 0 && a@[6] == 0 && a@[7] == 0);
            }
        },
    }
}

/// The address of a bridge that was found is one that was announced, not of this machine,
/// and of the fourth version where there is such a one.
pub proof fn law_best_address_prefers_the_fourth_version(addresses: Seq<IpAddress>, i: int, j: int)
    requires
        bridge::is_best_address(addresses, i),
        0 <= j < addresses.len(),
        bridge::reachable(addresses[j]),
    ensures
        bridge::reachable(addresses[i]),
        addresses[j] is V4 ==> addresses[i] is V4,
        j < i ==> addresses[j] is V6 && addresses[i] is V4,
        addresses[i] matches IpAddress::V4(a) ==> a[0] != 127,
        addresses[j] matches IpAddress::V4(a) ==> a[0] != 127,
{
}

/// A record names a bridge by its first identifier, or by its second where it lacks the
/// first.
pub proof fn law_record_names_its_bridge(record: ServiceRecordView)
    ensures
        record.bridge_id is Some ==> bridge::record_id(record) == record.bridge_id,
        record.bridge_id is None ==> bridge::record_id(record) == record.id,
{
}

/// A bridge that is found takes the place of the one with its identifier, and all others
/// stay.
pub proof fn law_found_bridge_replaces_only_itself(
    bridges: Seq<BridgeCandidateView>,
    found: BridgeCandidateView,
    other: BridgeCandidateView,
)
    requires
        bridge::ordered(bridges),
    ensures
        bridge::with_bridge(bridges, found).contains(other) <==> other == found || (
        bridges.contains(other) && other.id != found.id),
    decreases bridges.len(),
{
    let all = bridge::with_bridge(bridges, found);
    if bridges.len() == 0 {
        assert(all[0] == found);
    } else {
        let rest = bridges.drop_first();
        assert forall|i: int, j: int| 0 <= i < j < rest.len() implies crate::text::text_less(
            (#[trigger] rest[i]).id,
            (#[trigger] rest[j]).id,
        ) by {
            assert(rest[i] == bridges[i + 1] && rest[j] == bridges[j + 1]);
        }
        law_found_bridge_replaces_only_itself(rest, found, other);
        lemma_first_and_rest(bridges, other);
        if bridges[0].id == found.id {
            lemma_first_and_rest(all, other);
            assert(all.drop_first() =~= rest);
            if rest.contains(other) && other.id == found.id {
                let k = choose|k: int| 0 <= k < rest.len() && rest[k] == other;
                assert(bridges[k + 1] == other);
                crate::text::lemma_text_order(bridges[0].id, bridges[k + 1].id);
            }
        } else if crate::text::text_less(found.id, bridges[0].id) {
            lemma_first_and_rest(all, other);
            assert(all.drop_first() =~= bridges);
            if bridges.contains(other) && other.id == found.id {
                let k = choose|k: int| 0 <= k < bridges.len() && bridges[k] == other;
                if k > 0 {
                    crate::text::lemma_text_order_transitive(
                        found.id,
                        bridges[0].id,
                        bridges[k].id,
                    );
                }
                crate::text::lemma_text_order(found.id, other.id);
            }
        } else {
            lemma_first_and_rest(all, other);
            assert(all.drop_first() =~= bridge::with_bridge(rest, found));
        }
    }
}

proof fn lemma_first_and_rest(list: Seq<BridgeCandidateView>, item: BridgeCandidateView)
    requires
        list.len() > 0,
    ensures
        list.contains(item) <==> list[0] == item || list.drop_first().contains(item),
{
    if list.contains(item) {
        let i = choose|i: int| 0 <= i < list.len() && list[i] == item;
        if i > 0 {
            assert(list.drop_first()[i - 1] == item);
        }
    }
    if list.drop_first().contains(item) {
        let i = choose|i: int| 0 <= i < list.drop_first().len() && list.drop_first()[i] == item;
        assert(list[i + 1] == item);
    }
}

/// A bridge that the cloud tells of has the address that it tells.
pub proof fn law_cloud_bridge_has_its_address(found: CloudBridgeView)
    ensures
        ({
            let candidate = bridge::cloud_candidate(found);
            &&& candidate.address == found.address
            &&& candidate.name == "Hue Bridge"@
            &&& candidate.id.len() == found.id.len()
            &&& bridge::is_bridge_id(found.id) ==> bridge::identity_problem(candidate.id, found.id)
                is None
        }),
{
    if bridge::is_bridge_id(found.id) {
        bridge::law_normalizing_is_idempotent(found.id);
    }
}

/// An address can be reached where it is neither unspecified nor of this machine.
pub proof fn law_addresses_of_this_machine_are_not_reached(address: IpAddress)
    ensures
        bridge::reachable(address) <==> match address {
            IpAddress::V4(a) => a[0] != 127 && (a[0] != 0 || a[1] != 0 || a[2] != 0 || a[3] != 0),
            IpAddress::V6(a) => a[0] != 0 || a[1] != 0 || a[2] != 0 || a[3] != 0 || a[4] != 0
                || a[5] != 0 || a[6] != 0 || a[7] > 1,
        },
{
    match address {
        IpAddress::V4(a) => {
            let zeros = seq![0u8, 0u8, 0u8, 0u8];
            if a[0] == 0 && a[1] == 0 && a[2] == 0 && a[3] == 0 {
                assert(a@ =~= zeros);
            }
            if a@ == zeros {
                assert(a@[0] == 0 && a@[1] == 0 && a@[2] == 0 && a@[3] == 0);
            }
        },
        IpAddress::V6(a) => {
            let zeros = seq![0u16, 0u16, 0u16, 0u16, 0u16, 0u16, 0u16, 0u16];
            let one = seq![0u16, 0u16, 0u16, 0u16, 0u16, 0u16, 0u16, 1u16];
            if a[0] == 0 && a[1] == 0 && a[2] == 0 && a[3] == 0 && a[4] == 0 && a[5] == 0 && a[6]
                == 0 {
                if a[7] == 0 {
                    assert(a@ =~= zeros);
                } else if a[7] == 1 {
                    assert(a@ =~= one);
                }
            }
            if a@ == zeros || a@ == one {
                assert(a@[0] == 0 && a@[1] == 0 && a@[2] == 0 && a@[3] == 0 && a@[4] == 0 && a@[5]
                    == 0 && a@[6] == 0 && a@[7] <= 1);
            }
        },
    }
}

/// A request that the bridge refuses is told with what it was for and the status.
pub proof fn law_refused_request_is_told(operation: Seq<char>, status: u16)
    ensures
        control::http_problem(operation, status) == "Hue "@ + operation
            + " failed with HTTP status "@ + crate::text::decimal_text(status as nat),
{
}

/// A packet without colors ends behind its area.
pub proof fn law_packet_without_colors(area: u128, sequence: u8)
    ensures
        ({
            let packet = stream::packet_bytes(area, sequence, Seq::empty());
            &&& packet.len() == 52
            &&& packet[9] == 2 && packet[11] == sequence
            &&& packet.subrange(16, 52) == vstd::utf8::encode_utf8(encoding::uuid_text(area))
        }),
{
    encoding::lemma_uuid_text_is_ascii(area);
    let packet = stream::packet_bytes(area, sequence, Seq::empty());
    assert(packet.subrange(16, 52) =~= vstd::utf8::encode_utf8(encoding::uuid_text(area)));
}

/// What is no identifier of a bridge is that of none.
pub proof fn law_identity_needs_identifiers(expected: Seq<char>, actual: Seq<char>)
    ensures
        !bridge::is_bridge_id(expected) ==> bridge::identity_problem(expected, actual) is Some,
        !bridge::is_bridge_id(actual) ==> bridge::identity_problem(expected, actual) is Some,
{
}

/// The lights are put back one after the other, from the first on, whatever comes of each;
/// those that fail are counted.
pub proof fn law_lights_are_put_back_in_turn(
    lights: Seq<LightRestoreView>,
    restoration: RestorationView,
    restored: bool,
    key: Seq<char>,
)
    requires
        restoration.tried < restoration.lights.len(),
    ensures
        ({
            let first = restore::begun(lights);
            let next = restore::recorded(restoration, restored);
            let request = restore::next_request(restoration, key);
            &&& first.lights == lights && first.tried == 0 && first.failures == 0
            &&& next.lights == restoration.lights
            &&& next.tried == restoration.tried + 1
            &&& restored ==> next.failures == restoration.failures
            &&& !restored ==> next.failures == restoration.failures + 1
            &&& request is Some
            &&& request->Some_0.body == Some(
                RequestBodyView::Light(restoration.lights[restoration.tried as int].state),
            )
        }),
{
}

} // verus!
