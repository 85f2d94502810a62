//! What importing a device or a group puts in the store, stated from the
//! device's and the group's own data.

use vstd::prelude::*;

use crate::bridge_import::{
    glight_link, group_ignored, group_scene_view, group_stage_cleaned, group_stage_scenes,
    group_topic, has_room, homes_with, is_plug, new_scene_rids, orphan_links, room_link,
    scene_link_for, scenes_added, spec_scene_icon, store_with_button, store_with_group,
    store_with_light, store_with_plug, BridgeConfig, Z2mServer,
};
use crate::convert::{or_unknown, spec_guess_product_data};
use crate::devicedb::spec_product_data;
use crate::hue_api::{ColorGamut, DeviceArchetype, Dimming, GamutType, XY};
use crate::ids::{text_link, RType, ResourceLink};
use crate::laws::{
    known_model_ids, lemma_group_room_holds_members, lemma_plug_models, lemma_product_data_values,
    typed_view,
};
use crate::resources::{
    ResourceView, RoomArchetype, SceneActive, SceneIcon, Timestamp, ZigbeeConnectivityStatus,
};
use crate::store::{links_of_type, scene_rids};
use crate::text::opt_chars;
use crate::z2m_api::{
    spec_feature, spec_first_gradient, Device, Expose, ExposeLight, Group, GroupScene,
};

verus! {

/// Whether `dev` reports Signify as its manufacturer.
pub open spec fn made_by_signify(dev: &Device) -> bool {
    opt_chars(dev.manufacturer) == Some("Signify Netherlands B.V."@)
}

/// Whether none of the links `links` is in `m`.
pub open spec fn all_new(m: Map<ResourceLink, ResourceView>, links: Seq<ResourceLink>) -> bool {
    forall|i: int| 0 <= i < links.len() ==> !m.contains_key(#[trigger] links[i])
}

/// A light imported into a store that has none of its resources yet: the
/// device lists the light, entertainment, Taurus and Zigbee connectivity
/// services, each of them is owned by the device, the light is named after
/// the device (with the device's metadata), and it offers the Hue light
/// effects, old and new alike, exactly when the device is made by Signify.
pub proof fn lemma_light_import_services(m: Map<ResourceLink, ResourceView>, dev: &Device, expose: ExposeLight)
    requires
        all_new(
            m,
            seq![
                text_link(RType::Device, dev.ieee_address@),
                text_link(RType::Light, dev.ieee_address@),
                text_link(RType::Entertainment, dev.ieee_address@),
                text_link(RType::Taurus, dev.ieee_address@),
                text_link(RType::ZigbeeConnectivity, dev.ieee_address@),
            ],
        ),
    ensures
        ({
            let a = dev.ieee_address@;
            let s = store_with_light(m, dev, expose);
            let link_device = text_link(RType::Device, a);
            let link_light = text_link(RType::Light, a);
            let link_enttm = text_link(RType::Entertainment, a);
            let link_taurus = text_link(RType::Taurus, a);
            let link_zigcon = text_link(RType::ZigbeeConnectivity, a);
            &&& s[link_device] is Device
            &&& s[link_light] is Light
            &&& s[link_enttm] is Entertainment
            &&& s[link_taurus] is Taurus
            &&& s[link_zigcon] is ZigbeeConnectivity
            &&& s[link_device]->Device_0.services == set![link_light, link_enttm, link_taurus, link_zigcon]
            &&& s[link_light]->Light_0.owner == link_device
            &&& s[link_enttm]->Entertainment_0.owner == link_device
            &&& s[link_enttm]->Entertainment_0.renderer_reference == Some(link_light)
            &&& s[link_taurus]->Taurus_0.owner == link_device
            &&& s[link_zigcon]->ZigbeeConnectivity_0.owner == link_device
            &&& s[link_zigcon]->ZigbeeConnectivity_0.mac_address == a
            &&& s[link_light]->Light_0.metadata.name == dev.friendly_name@
            &&& s[link_light]->Light_0.metadata == s[link_device]->Device_0.metadata
            &&& s[link_light]->Light_0.effects == made_by_signify(dev)
            &&& s[link_light]->Light_0.effects_v2 == made_by_signify(dev)
            &&& s[link_device]->Device_0.identify
            &&& s[link_device]->Device_0.product_data == spec_guess_product_data(dev)
            &&& s[link_zigcon]->ZigbeeConnectivity_0.status == ZigbeeConnectivityStatus::Connected
            &&& s[link_zigcon]->ZigbeeConnectivity_0.channel is None
            &&& s[link_taurus]->Taurus_0.capabilities == seq!["sensor"@, "collector"@, "sync"@]
            &&& s[link_enttm]->Entertainment_0.equalizer
            &&& s[link_enttm]->Entertainment_0.proxy
            &&& s[link_enttm]->Entertainment_0.renderer
            &&& s[link_enttm]->Entertainment_0.max_streams is None
            &&& s[link_enttm]->Entertainment_0.segments matches Some(sg) && !sg.configurable && (if spec_first_gradient(
                dev.exposes@,
            ) is Some {
                &&& sg.max_segments == 10
                &&& sg.segments.len() == 7
                &&& forall|i: int| 0 <= i < 7 ==> (#[trigger] sg.segments[i]).start == i && sg.segments[i].length == 1
            } else {
                &&& sg.max_segments == 1
                &&& sg.segments.len() == 1
                &&& sg.segments[0].start == 0 && sg.segments[0].length == 1
            })
        }),
{
    let a = dev.ieee_address@;
    let links = seq![
        text_link(RType::Device, a),
        text_link(RType::Light, a),
        text_link(RType::Entertainment, a),
        text_link(RType::Taurus, a),
        text_link(RType::ZigbeeConnectivity, a),
    ];
    assert(!m.contains_key(links[0]));
    assert(!m.contains_key(links[1]));
    assert(!m.contains_key(links[2]));
    assert(!m.contains_key(links[3]));
    assert(!m.contains_key(links[4]));
    let s = store_with_light(m, dev, expose);
    assert(s[links[0]]->Device_0.services =~= set![links[1], links[2], links[3], links[4]]);
}

/// A plug imported into a store that has none of its resources yet: the
/// device lists the light and Zigbee connectivity services, both owned by the
/// device, and the light carries the device's metadata, named by the device's
/// friendly name; a plug offers no dimming, colour or effects.
pub proof fn lemma_plug_import_services(m: Map<ResourceLink, ResourceView>, dev: &Device)
    requires
        all_new(
            m,
            seq![
                text_link(RType::Device, dev.ieee_address@),
                text_link(RType::Light, dev.ieee_address@),
                text_link(RType::ZigbeeConnectivity, dev.ieee_address@),
            ],
        ),
    ensures
        ({
            let a = dev.ieee_address@;
            let s = store_with_plug(m, dev);
            let link_device = text_link(RType::Device, a);
            let link_light = text_link(RType::Light, a);
            let link_zigcon = text_link(RType::ZigbeeConnectivity, a);
            &&& s[link_device] is Device
            &&& s[link_light] is Light
            &&& s[link_zigcon] is ZigbeeConnectivity
            &&& s[link_device]->Device_0.services == set![link_light, link_zigcon]
            &&& s[link_light]->Light_0.owner == link_device
            &&& s[link_zigcon]->ZigbeeConnectivity_0.owner == link_device
            &&& s[link_light]->Light_0.metadata.name == dev.friendly_name@
            &&& s[link_device]->Device_0.metadata.name == dev.friendly_name@
            &&& s[link_light]->Light_0.metadata == s[link_device]->Device_0.metadata
            &&& s[link_light]->Light_0.dimming is None
            &&& s[link_light]->Light_0.color is None
            &&& s[link_light]->Light_0.color_temperature is None
            &&& !s[link_light]->Light_0.effects
            &&& !s[link_light]->Light_0.effects_v2
            &&& s[link_device]->Device_0.identify
            &&& s[link_device]->Device_0.product_data == spec_guess_product_data(dev)
            &&& s[link_zigcon]->ZigbeeConnectivity_0.status == ZigbeeConnectivityStatus::Connected
            &&& s[link_zigcon]->ZigbeeConnectivity_0.mac_address == a
        }),
{
    let a = dev.ieee_address@;
    let links = seq![
        text_link(RType::Device, a),
        text_link(RType::Light, a),
        text_link(RType::ZigbeeConnectivity, a),
    ];
    assert(!m.contains_key(links[0]));
    assert(!m.contains_key(links[1]));
    assert(!m.contains_key(links[2]));
    let s = store_with_plug(m, dev);
    assert(s[links[0]]->Device_0.services =~= set![links[1], links[2]]);
}

/// A button imported at `updated` into a store that has none of its resources
/// yet: the device lists the button and Zigbee connectivity services, both
/// owned by the device, and the button reports an initial press at `updated`.
pub proof fn lemma_button_import_services(m: Map<ResourceLink, ResourceView>, dev: &Device, updated: Timestamp)
    requires
        all_new(
            m,
            seq![
                text_link(RType::Device, dev.ieee_address@),
                text_link(RType::Button, dev.ieee_address@),
                text_link(RType::ZigbeeConnectivity, dev.ieee_address@),
            ],
        ),
    ensures
        ({
            let a = dev.ieee_address@;
            let s = store_with_button(m, dev, updated);
            let link_device = text_link(RType::Device, a);
            let link_button = text_link(RType::Button, a);
            let link_zigcon = text_link(RType::ZigbeeConnectivity, a);
            &&& s[link_device] is Device
            &&& s[link_button] is Button
            &&& s[link_zigcon] is ZigbeeConnectivity
            &&& s[link_device]->Device_0.services == set![link_button, link_zigcon]
            &&& s[link_button]->Button_0.owner == link_device
            &&& s[link_zigcon]->ZigbeeConnectivity_0.owner == link_device
            &&& s[link_button]->Button_0.button_report matches Some(r) && r.updated == updated
                && r.event == "initial_press"@
            &&& s[link_button]->Button_0.control_id == 0
            &&& s[link_button]->Button_0.last_event is None
            &&& s[link_button]->Button_0.repeat_interval == Some(100u32)
            &&& s[link_button]->Button_0.event_values == Some(seq!["initial_press"@, "repeat"@])
            &&& s[link_device]->Device_0.metadata.name == "foo"@
            &&& s[link_device]->Device_0.metadata.archetype == DeviceArchetype::UnknownArchetype
            &&& !s[link_device]->Device_0.identify
            &&& s[link_device]->Device_0.product_data == spec_guess_product_data(dev)
            &&& s[link_zigcon]->ZigbeeConnectivity_0.status == ZigbeeConnectivityStatus::ConnectivityIssue
            &&& s[link_zigcon]->ZigbeeConnectivity_0.mac_address == "11:22:33:44:55:66:77:89"@
            &&& s[link_zigcon]->ZigbeeConnectivity_0.channel matches Some(c) && c.status == "set"@ && c.value
                == "channel_25"@
        }),
{
    let a = dev.ieee_address@;
    let links = seq![
        text_link(RType::Device, a),
        text_link(RType::Button, a),
        text_link(RType::ZigbeeConnectivity, a),
    ];
    assert(!m.contains_key(links[0]));
    assert(!m.contains_key(links[1]));
    assert(!m.contains_key(links[2]));
    let s = store_with_button(m, dev, updated);
    assert(s[links[0]]->Device_0.services =~= set![links[1], links[2]]);
}

/// The room that importing `grp` adds when the store has no room for the
/// group's topic yet: it is named by the room configuration of the topic
/// where that gives a name, else by the topic without the configured group
/// prefix; its icon is the configured one, else the home icon; it holds the
/// group's members and offers the group's grouped light.
pub proof fn lemma_new_room_metadata(
    m: Map<ResourceLink, ResourceView>,
    config: &BridgeConfig,
    server: &Z2mServer,
    grp: &Group,
)
    requires
        !m.contains_key(room_link(group_topic(server, grp).1)),
    ensures
        ({
            let topic = group_topic(server, grp).1;
            let s = store_with_group(m, config, server, grp);
            let room = s[room_link(topic)];
            let conf = config.rooms.view();
            &&& s.contains_key(room_link(topic))
            &&& room is Room
            &&& conf.contains_key(topic) && conf[topic].name is Some ==> room->Room_0.metadata.name
                == conf[topic].name->0@
            &&& !(conf.contains_key(topic) && conf[topic].name is Some) ==> room->Room_0.metadata.name
                == (if server.group_prefix is Some && server.group_prefix->0@.is_prefix_of(topic) {
                    topic.skip(server.group_prefix->0@.len() as int)
                } else {
                    topic
                })
            &&& conf.contains_key(topic) && conf[topic].icon is Some ==> room->Room_0.metadata.archetype
                == conf[topic].icon->0
            &&& !(conf.contains_key(topic) && conf[topic].icon is Some) ==> room->Room_0.metadata.archetype
                == RoomArchetype::Home
            &&& room->Room_0.services == set![glight_link(topic)]
            &&& !m.contains_key(glight_link(topic)) ==> s[glight_link(topic)] == ResourceView::GroupedLight(
                room_link(topic),
            )
            &&& forall|k: int| 0 <= k < grp.members@.len() ==> room->Room_0.children.contains(
                text_link(RType::Device, #[trigger] grp.members@[k].ieee_address@),
            )
        }),
{
    let topic = group_topic(server, grp).1;
    let room = room_link(topic);
    let m0 = group_stage_cleaned(m, server, grp);
    assert(!m0.contains_key(room));
    let m1 = group_stage_scenes(m, server, grp);
    if !group_topic(server, grp).0 {
        let ma = scenes_added(m0, grp.scenes@, room);
        lemma_scenes_added_keys(m0, grp.scenes@, room);
        assert(!ma.contains_key(room));
    }
    assert(!m1.contains_key(room));
    assert(!has_room(m1, room));
    let m2 = homes_with(m1, links_of_type(m1, RType::BridgeHome), room);
    assert(!m2.contains_key(room));
    let f = |mb: crate::z2m_api::GroupMember| text_link(RType::Device, mb.ieee_address@);
    assert forall|k: int| 0 <= k < grp.members@.len() implies crate::bridge_import::children_links(grp).contains(
        text_link(RType::Device, #[trigger] grp.members@[k].ieee_address@),
    ) by {
        assert(grp.members@.map_values(f)[k] == f(grp.members@[k]));
    }
}

/// Adding scenes adds only scene links.
proof fn lemma_scenes_added_keys(m: Map<ResourceLink, ResourceView>, scenes: Seq<GroupScene>, room: ResourceLink)
    ensures
        forall|l: ResourceLink| #[trigger] scenes_added(m, scenes, room).contains_key(l) ==> m.contains_key(l)
            || l.rtype == RType::Scene,
    decreases scenes.len(),
{
    if scenes.len() > 0 {
        let prev = scenes_added(m, scenes.drop_last(), room);
        lemma_scenes_added_keys(m, scenes.drop_last(), room);
        let link = scene_link_for(room, scenes.last().id);
        assert(link.rtype == RType::Scene);
        assert forall|l: ResourceLink| #[trigger] scenes_added(m, scenes, room).contains_key(l) implies m.contains_key(l)
            || l.rtype == RType::Scene by {
            if l != link {
                assert(prev.contains_key(l));
            }
        }
    }
}

/// The product data guessed for a device: the model id, manufacturer,
/// product name and software version it reports (or "<unknown>"), certified
/// exactly when it is made by Signify, and the archetype and hardware
/// platform type of its model id in the product database (the unknown
/// archetype and none for a model the database does not know).
pub proof fn lemma_guessed_product_data(dev: &Device)
    ensures
        ({
            let g = spec_guess_product_data(dev);
            let model_id = match dev.model_id {
                Some(m) => m@,
                None => "<unknown>"@,
            };
            &&& g.model_id == model_id
            &&& g.manufacturer_name == (match dev.manufacturer {
                Some(m) => m@,
                None => "<unknown>"@,
            })
            &&& g.product_name == (match dev.definition {
                Some(d) => d.model@,
                None => "<unknown>"@,
            })
            &&& g.software_version == (match dev.software_build_id {
                Some(v) => v@,
                None => "<unknown>"@,
            })
            &&& g.certified == made_by_signify(dev)
            &&& g.product_archetype == (match spec_product_data(model_id) {
                Some(d) => d.product_archetype,
                None => DeviceArchetype::UnknownArchetype,
            })
            &&& g.hardware_platform_type == (match spec_product_data(model_id) {
                Some(d) => d.hardware_platform_type,
                None => None,
            })
        }),
{
    reveal_strlit("<unknown>");
    reveal_strlit("Signify Netherlands B.V.");
    let g = spec_guess_product_data(dev);
    assert(g.model_id == or_unknown(opt_chars(dev.model_id)));
    if dev.manufacturer is None {
        assert("<unknown>"@.len() != "Signify Netherlands B.V."@.len());
        assert(!g.certified);
    }
    assert(g.certified == made_by_signify(dev));
    assert(g.product_name == (match dev.definition {
                Some(d) => d.model@,
                None => "<unknown>"@,
            }));
}

/// A device is imported as a plug exactly when its model id is that of one of
/// the two smart plugs the product database knows.
pub proof fn lemma_plug_devices(dev: &Device)
    ensures
        is_plug(dev) <==> (opt_chars(dev.model_id) == Some("3RSP02028BZ"@) || opt_chars(dev.model_id)
            == Some("LOM001"@)),
{
    let model_id = or_unknown(opt_chars(dev.model_id));
    lemma_plug_models(model_id);
    lemma_product_data_values();
    if dev.model_id is None {
        reveal_strlit("<unknown>");
        reveal_strlit("3RSP02028BZ");
        reveal_strlit("LOM001");
        assert(model_id == "<unknown>"@);
        assert(!known_model_ids().contains(model_id)) by {
            lemma_unknown_not_known();
        }
    }
}

/// The placeholder model id is no model id the database knows.
proof fn lemma_unknown_not_known()
    ensures
        !known_model_ids().contains("<unknown>"@),
{
    reveal_strlit("<unknown>");
    assert("<unknown>"@[0] == '<');
    reveal_strlit("3RSP02028BZ");
    assert("3RSP02028BZ"@[0] != '<');
    reveal_strlit("915005987201");
    assert("915005987201"@[0] != '<');
    reveal_strlit("929003053301_01");
    assert("929003053301_01"@[0] != '<');
    reveal_strlit("929003053301_02");
    assert("929003053301_02"@[0] != '<');
    reveal_strlit("LCA001");
    assert("LCA001"@[0] != '<');
    reveal_strlit("LCD007");
    assert("LCD007"@[0] != '<');
    reveal_strlit("LCE002");
    assert("LCE002"@[0] != '<');
    reveal_strlit("LCG002");
    assert("LCG002"@[0] != '<');
    reveal_strlit("LCT014");
    assert("LCT014"@[0] != '<');
    reveal_strlit("LCT015");
    assert("LCT015"@[0] != '<');
    reveal_strlit("LCT016");
    assert("LCT016"@[0] != '<');
    reveal_strlit("LCX001");
    assert("LCX001"@[0] != '<');
    reveal_strlit("LCX005");
    assert("LCX005"@[0] != '<');
    reveal_strlit("LLC020");
    assert("LLC020"@[0] != '<');
    reveal_strlit("LOM001");
    assert("LOM001"@[0] != '<');
    reveal_strlit("LST002");
    assert("LST002"@[0] != '<');
    reveal_strlit("LTO001");
    assert("LTO001"@[0] != '<');
    reveal_strlit("LTW015");
    assert("LTW015"@[0] != '<');
    reveal_strlit("LWA003");
    assert("LWA003"@[0] != '<');
    reveal_strlit("LWA029");
    assert("LWA029"@[0] != '<');
    reveal_strlit("LWB014");
    assert("LWB014"@[0] != '<');
    reveal_strlit("RDM002");
    assert("RDM002"@[0] != '<');
    reveal_strlit("RWL021");
    assert("RWL021"@[0] != '<');
    reveal_strlit("RWL022");
    assert("RWL022"@[0] != '<');
    reveal_strlit("SML001");
    assert("SML001"@[0] != '<');
    reveal_strlit("SML002");
    assert("SML002"@[0] != '<');
    reveal_strlit("SML003");
    assert("SML003"@[0] != '<');
    reveal_strlit("Z3-1BRL");
    assert("Z3-1BRL"@[0] != '<');
}

/// Adding scenes adds only the links of those scenes.
proof fn lemma_scenes_added_only(m: Map<ResourceLink, ResourceView>, scenes: Seq<GroupScene>, room: ResourceLink)
    ensures
        forall|l: ResourceLink| #[trigger] scenes_added(m, scenes, room).contains_key(l) ==> m.contains_key(l)
            || exists|j: int| 0 <= j < scenes.len() && l == scene_link_for(room, scenes[j].id),
    decreases scenes.len(),
{
    if scenes.len() > 0 {
        let prev_scenes = scenes.drop_last();
        let prev = scenes_added(m, prev_scenes, room);
        lemma_scenes_added_only(m, prev_scenes, room);
        let last = scenes.len() - 1;
        assert forall|l: ResourceLink| #[trigger] scenes_added(m, scenes, room).contains_key(l) implies m.contains_key(l)
            || exists|j: int| 0 <= j < scenes.len() && l == scene_link_for(room, scenes[j].id) by {
            if l == scene_link_for(room, scenes[last].id) {
            } else {
                assert(prev.contains_key(l));
                if !m.contains_key(l) {
                    let j = choose|j: int| 0 <= j < prev_scenes.len() && l == scene_link_for(room, prev_scenes[j].id);
                    assert(prev_scenes[j] == scenes[j]);
                }
            }
        }
    }
}

/// Adding scenes gives each scene whose link is new, and comes first among
/// the scenes with that link, the scene view of that scene.
proof fn lemma_scenes_added_value(
    m: Map<ResourceLink, ResourceView>,
    scenes: Seq<GroupScene>,
    room: ResourceLink,
    k: int,
)
    requires
        0 <= k < scenes.len(),
        !m.contains_key(scene_link_for(room, scenes[k].id)),
        forall|j: int| 0 <= j < k ==> scene_link_for(room, #[trigger] scenes[j].id) != scene_link_for(room, scenes[k].id),
    ensures
        scenes_added(m, scenes, room).contains_key(scene_link_for(room, scenes[k].id)),
        scenes_added(m, scenes, room)[scene_link_for(room, scenes[k].id)] == ResourceView::Scene(
            group_scene_view(room, scenes[k]),
        ),
    decreases scenes.len(),
{
    let prev_scenes = scenes.drop_last();
    let link = scene_link_for(room, scenes[k].id);
    if k < scenes.len() - 1 {
        assert(prev_scenes[k] == scenes[k]);
        assert forall|j: int| 0 <= j < k implies scene_link_for(room, #[trigger] prev_scenes[j].id) != scene_link_for(room, prev_scenes[k].id) by {
            assert(prev_scenes[j] == scenes[j]);
        }
        lemma_scenes_added_value(m, prev_scenes, room, k);
    } else {
        lemma_scenes_added_only(m, prev_scenes, room);
        let prev = scenes_added(m, prev_scenes, room);
        if prev.contains_key(link) {
            let j = choose|j: int| 0 <= j < prev_scenes.len() && link == scene_link_for(room, prev_scenes[j].id);
            assert(prev_scenes[j] == scenes[j]);
        }
    }
}

/// Importing a group of lights (not of plugs) puts in the store, for each
/// scene of the group whose link is new (and not shared with an earlier
/// scene of the group), a scene of the group's room named as the group's
/// scene, with the image its name suggests, inactive and at half speed.
pub proof fn lemma_group_scenes_imported(
    m: Map<ResourceLink, ResourceView>,
    config: &BridgeConfig,
    server: &Z2mServer,
    grp: &Group,
    k: int,
)
    requires
        !group_topic(server, grp).0,
        0 <= k < grp.scenes@.len(),
        !m.contains_key(scene_link_for(room_link(group_topic(server, grp).1), grp.scenes@[k].id)),
        forall|j: int|
            0 <= j < k ==> scene_link_for(room_link(group_topic(server, grp).1), #[trigger] grp.scenes@[j].id)
                != scene_link_for(room_link(group_topic(server, grp).1), grp.scenes@[k].id),
    ensures
        ({
            let room = room_link(group_topic(server, grp).1);
            let link = scene_link_for(room, grp.scenes@[k].id);
            let s = store_with_group(m, config, server, grp);
            &&& s.contains_key(link)
            &&& s[link] is Scene
            &&& s[link]->Scene_0.name == grp.scenes@[k].name@
            &&& s[link]->Scene_0.group == room
            &&& s[link]->Scene_0.image == spec_scene_icon(grp.scenes@[k].name@)
            &&& s[link]->Scene_0.active == SceneActive::Inactive
            &&& s[link]->Scene_0.speed == 50
            &&& !s[link]->Scene_0.auto_dynamic
            &&& s[link]->Scene_0.appdata is None
        }),
{
    let topic = group_topic(server, grp).1;
    let room = room_link(topic);
    let scenes = grp.scenes@;
    let link = scene_link_for(room, scenes[k].id);
    let m0 = group_stage_cleaned(m, server, grp);
    assert(!m0.contains_key(link));
    lemma_scenes_added_value(m0, scenes, room, k);
    let ma = scenes_added(m0, scenes, room);
    let view = ResourceView::Scene(group_scene_view(room, scenes[k]));
    let m1 = group_stage_scenes(m, server, grp);
    if has_room(ma, room) {
        let f = |sc: GroupScene| scene_link_for(room, sc.id).rid;
        assert(scenes.map_values(f)[k] == link.rid);
        assert(new_scene_rids(scenes, room).contains(link.rid));
        assert(!orphan_links(scene_rids(ma, room.rid), new_scene_rids(scenes, room)).contains(link));
    }
    assert(m1.contains_key(link) && m1[link] == view);
    let s = store_with_group(m, config, server, grp);
    if !has_room(m1, room) {
        let m2 = homes_with(m1, links_of_type(m1, RType::BridgeHome), room);
        assert(m2.contains_key(link) && m2[link] == view);
    }
}

/// The scene image a name suggests: each built-in scene name suggests its own
/// image, "Night", "Cool" and "Dim" suggest those of "Night Light", "Cool
/// Bright" and "Dimmed", and no other name suggests one.
pub proof fn lemma_scene_icon_names(name: Seq<char>)
    ensures
        spec_scene_icon(name) == Some(SceneIcon::Bright) <==> name == "Bright"@,
        spec_scene_icon(name) == Some(SceneIcon::Relax) <==> name == "Relax"@,
        spec_scene_icon(name) == Some(SceneIcon::Rest) <==> name == "Rest"@,
        spec_scene_icon(name) == Some(SceneIcon::Concentrate) <==> name == "Concentrate"@,
        spec_scene_icon(name) == Some(SceneIcon::Energize) <==> name == "Energize"@,
        spec_scene_icon(name) == Some(SceneIcon::Read) <==> name == "Read"@,
        spec_scene_icon(name) == Some(SceneIcon::NightLight) <==> (name == "Night Light"@ || name == "Night"@),
        spec_scene_icon(name) == Some(SceneIcon::Dimmed) <==> (name == "Dimmed"@ || name == "Dim"@),
        spec_scene_icon(name) == Some(SceneIcon::CoolBright) <==> (name == "Cool Bright"@ || name == "Cool"@),
{
    reveal_strlit("Bright");
    reveal_strlit("Relax");
    reveal_strlit("Night Light");
    reveal_strlit("Rest");
    reveal_strlit("Concentrate");
    reveal_strlit("Dimmed");
    reveal_strlit("Energize");
    reveal_strlit("Read");
    reveal_strlit("Cool Bright");
    reveal_strlit("Night");
    reveal_strlit("Cool");
    reveal_strlit("Dim");
    if name == "Bright"@ {
        assert(name.len() == 6 && name[0] == 'B' && name[1] == 'r' && name[2] == 'i');
    }
    if name == "Relax"@ {
        assert(name.len() == 5 && name[0] == 'R' && name[1] == 'e' && name[2] == 'l');
    }
    if name == "Night Light"@ {
        assert(name.len() == 11 && name[0] == 'N' && name[1] == 'i' && name[2] == 'g');
    }
    if name == "Rest"@ {
        assert(name.len() == 4 && name[0] == 'R' && name[1] == 'e' && name[2] == 's');
    }
    if name == "Concentrate"@ {
        assert(name.len() == 11 && name[0] == 'C' && name[1] == 'o' && name[2] == 'n');
    }
    if name == "Dimmed"@ {
        assert(name.len() == 6 && name[0] == 'D' && name[1] == 'i' && name[2] == 'm');
    }
    if name == "Energize"@ {
        assert(name.len() == 8 && name[0] == 'E' && name[1] == 'n' && name[2] == 'e');
    }
    if name == "Read"@ {
        assert(name.len() == 4 && name[0] == 'R' && name[1] == 'e' && name[2] == 'a');
    }
    if name == "Cool Bright"@ {
        assert(name.len() == 11 && name[0] == 'C' && name[1] == 'o' && name[2] == 'o');
    }
    if name == "Night"@ {
        assert(name.len() == 5 && name[0] == 'N' && name[1] == 'i' && name[2] == 'g');
    }
    if name == "Cool"@ {
        assert(name.len() == 4 && name[0] == 'C' && name[1] == 'o' && name[2] == 'o');
    }
    if name == "Dim"@ {
        assert(name.len() == 3 && name[0] == 'D' && name[1] == 'i' && name[2] == 'm');
    }
}

/// The capabilities of a light imported into a store without it: dimmable
/// (down to 0.01 %) when its first "brightness" feature is numeric; colour
/// (gamut C, from the D65 white point) when its first "color_xy" feature is
/// composite; colour temperature when its first "color_temp" feature is
/// numeric, over that feature's mirek range when it is given in mired with
/// both bounds (and then valid), else over 153 to 500 mirek (not valid).
pub proof fn lemma_light_capabilities(m: Map<ResourceLink, ResourceView>, dev: &Device, expose: ExposeLight)
    requires
        !m.contains_key(text_link(RType::Light, dev.ieee_address@)),
    ensures
        ({
            let l = store_with_light(m, dev, expose)[text_link(RType::Light, dev.ieee_address@)];
            let brightness = spec_feature(expose.features@, "brightness"@);
            let color_xy = spec_feature(expose.features@, "color_xy"@);
            let color_temp = spec_feature(expose.features@, "color_temp"@);
            &&& l is Light
            &&& (l->Light_0.dimming is Some <==> (brightness is Some && brightness->0 is Numeric))
            &&& (l->Light_0.dimming matches Some(d) ==> d == Dimming { brightness: 1, min_dim_level: Some(1) })
            &&& (l->Light_0.color is Some <==> (color_xy is Some && color_xy->0 is Composite))
            &&& (l->Light_0.color matches Some(c) ==> c.gamut_type == GamutType::C && c.gamut
                == Some(ColorGamut::spec_gamut_c()) && c.xy == XY::spec_d65_white_point())
            &&& (l->Light_0.color_temperature is Some <==> (color_temp is Some && color_temp->0 is Numeric))
            &&& (l->Light_0.color_temperature matches Some(ct) ==> {
                &&& ct.mirek is None
                &&& color_temp matches Some(Expose::Numeric(num))
                &&& ct.mirek_valid == (opt_chars(num.unit) == Some("mired"@) && num.value_min is Some
                    && num.value_max is Some)
                &&& ct.mirek_valid ==> ct.mirek_schema.mirek_minimum == num.value_min->0
                    && ct.mirek_schema.mirek_maximum == num.value_max->0
                &&& !ct.mirek_valid ==> ct.mirek_schema.mirek_minimum == 153
                    && ct.mirek_schema.mirek_maximum == 500
            })
        }),
{
}

/// A group is imported into the room of its topic: a group of plugs listed in
/// the plug map joins the room of the light group it is mapped to, any other
/// group gets the room named by its own friendly name. Either way the room
/// then exists and holds the group's members, and a group of plugs brings
/// no scene.
pub proof fn lemma_group_joins_room(
    m: Map<ResourceLink, ResourceView>,
    config: &BridgeConfig,
    server: &Z2mServer,
    grp: &Group,
)
    requires
        typed_view(m),
        !group_ignored(server, grp),
    ensures
        ({
            let is_plug_group = server.plug_map is Some && server.plug_map->0.view().contains_key(
                grp.friendly_name@,
            );
            let topic = if is_plug_group {
                server.plug_map->0.view()[grp.friendly_name@]@
            } else {
                grp.friendly_name@
            };
            let s = store_with_group(m, config, server, grp);
            &&& has_room(s, room_link(topic))
            &&& forall|k: int| 0 <= k < grp.members@.len() ==> s[room_link(topic)]->Room_0.children.contains(
                text_link(RType::Device, #[trigger] grp.members@[k].ieee_address@),
            )
            &&& is_plug_group ==> forall|l: ResourceLink| #[trigger] s.contains_key(l) && l.rtype == RType::Scene
                ==> m.contains_key(l)
        }),
{
    lemma_group_room_holds_members(m, config, server, grp);
    let f = |mb: crate::z2m_api::GroupMember| text_link(RType::Device, mb.ieee_address@);
    assert forall|k: int| 0 <= k < grp.members@.len() implies crate::bridge_import::children_links(grp).contains(
        text_link(RType::Device, #[trigger] grp.members@[k].ieee_address@),
    ) by {
        assert(grp.members@.map_values(f)[k] == f(grp.members@[k]));
    }
    let (plug, topic) = group_topic(server, grp);
    if plug {
        let room = room_link(topic);
        let m1 = group_stage_scenes(m, server, grp);
        let s = store_with_group(m, config, server, grp);
        assert forall|l: ResourceLink| #[trigger] s.contains_key(l) && l.rtype == RType::Scene implies m.contains_key(l) by {
            assert(l != room);
            assert(l != glight_link(topic));
            assert(m1.contains_key(l));
        }
    }
}

} // verus!
