use bifrost::assoc::AssocMap;
use bifrost::bridge_import::{guess_scene_icon, BridgeConfig, RoomConfig, Z2mBackend, Z2mServer};
use bifrost::hue_api::DeviceArchetype;
use bifrost::ids::{IdSource, RType, ResourceLink};
use bifrost::resources::{
    BridgeHome, Resource, RoomArchetype, SceneActive, SceneIcon, Timestamp,
    ZigbeeConnectivityStatus,
};
use bifrost::store::Resources;
use bifrost::z2m_api::{
    Device, Expose, ExposeComposite, ExposeLight, ExposeList, ExposeNumeric, Group, GroupMember,
    GroupScene,
};

fn backend(prefix: Option<&str>) -> Z2mBackend {
    Z2mBackend::new(
        "z2m".to_string(),
        Z2mServer { group_prefix: prefix.map(|p| p.to_string()), plug_map: None },
        BridgeConfig { rooms: AssocMap::new() },
    )
}

fn dev(name: &str, addr: &str, manufacturer: Option<&str>, model_id: Option<&str>) -> Device {
    Device {
        friendly_name: name.to_string(),
        ieee_address: addr.to_string(),
        manufacturer: manufacturer.map(|s| s.to_string()),
        model_id: model_id.map(|s| s.to_string()),
        software_build_id: None,
        definition: None,
        exposes: vec![],
    }
}

fn link(t: RType, addr: &str) -> ResourceLink {
    t.deterministic(IdSource::Text(addr))
}

fn full_light() -> ExposeLight {
    ExposeLight {
        features: vec![
            Expose::Numeric(ExposeNumeric {
                name: Some("brightness".to_string()),
                unit: None,
                value_min: Some(0),
                value_max: Some(254),
            }),
            Expose::Numeric(ExposeNumeric {
                name: Some("color_temp".to_string()),
                unit: Some("mired".to_string()),
                value_min: Some(153),
                value_max: Some(500),
            }),
            Expose::Composite(ExposeComposite {
                name: Some("color_xy".to_string()),
                features: vec![],
            }),
        ],
    }
}

#[test]
fn feature_lookup_by_name() {
    let l = full_light();
    assert!(matches!(l.feature("color_temp"), Some(Expose::Numeric(n)) if n.unit.as_deref() == Some("mired")));
    assert!(matches!(l.feature("color_xy"), Some(Expose::Composite(_))));
    assert!(l.feature("nothing").is_none());
}

#[test]
fn add_light_creates_all_services() {
    let mut be = backend(None);
    let mut res = Resources::new();
    let mut d = dev("kitchen lamp", "0x01", Some("Signify Netherlands B.V."), Some("LCX001"));
    d.exposes.push(Expose::List(ExposeList {
        name: Some("gradient".to_string()),
        length_min: None,
        length_max: Some(5),
    }));
    assert!(be.add_light(&mut res, &d, &full_light()).is_ok());

    let ld = link(RType::Device, "0x01");
    let ll = link(RType::Light, "0x01");
    assert_eq!(be.map.get(&"kitchen lamp".to_string()), Some(&ll));
    assert_eq!(be.map.get(&"0x01".to_string()), Some(&ll));
    assert_eq!(be.rmap.get(&ld).map(|s| s.as_str()), Some("kitchen lamp"));
    assert_eq!(be.rmap.get(&ll).map(|s| s.as_str()), Some("kitchen lamp"));

    match res.get(&ld) {
        Some(Resource::Device(device)) => {
            assert_eq!(device.services.len(), 4);
            assert!(device.services.contains(&ll));
            assert!(device.identify);
            assert_eq!(device.metadata.name, "kitchen lamp");
            assert_eq!(device.metadata.archetype, DeviceArchetype::HueLightstripTv);
        },
        _ => panic!("device missing"),
    }
    match res.get(&ll) {
        Some(Resource::Light(light)) => {
            assert_eq!(light.owner, ld);
            assert!(light.dimming.is_some());
            assert!(light.color_temperature.unwrap().mirek_valid);
            assert!(light.color.is_some());
            assert_eq!(light.gradient.as_ref().unwrap().points_capable, 5);
            assert!(light.effects);
            assert!(light.effects_v2);
        },
        _ => panic!("light missing"),
    }
    match res.get(&link(RType::Entertainment, "0x01")) {
        Some(Resource::Entertainment(e)) => {
            let segs = e.segments.as_ref().unwrap();
            assert_eq!(segs.max_segments, 10);
            assert_eq!(segs.segments.len(), 7);
            assert_eq!(segs.segments[6].start, 6);
            assert_eq!(e.renderer_reference, Some(ll));
        },
        _ => panic!("entertainment missing"),
    }
    match res.get(&link(RType::Taurus, "0x01")) {
        Some(Resource::Taurus(t)) => assert_eq!(t.capabilities, vec!["sensor", "collector", "sync"]),
        _ => panic!("taurus missing"),
    }
    match res.get(&link(RType::ZigbeeConnectivity, "0x01")) {
        Some(Resource::ZigbeeConnectivity(z)) => {
            assert_eq!(z.mac_address, "0x01");
            assert_eq!(z.status, ZigbeeConnectivityStatus::Connected);
        },
        _ => panic!("zigbee connectivity missing"),
    }
    assert_eq!(res.aux_get(&ll).unwrap().topic.as_deref(), Some("kitchen lamp"));
}

#[test]
fn add_light_plain() {
    let mut be = backend(None);
    let mut res = Resources::new();
    let d = dev("desk", "0x02", Some("IKEA"), None);
    assert!(be.add_light(&mut res, &d, &ExposeLight { features: vec![] }).is_ok());
    match res.get(&link(RType::Light, "0x02")) {
        Some(Resource::Light(light)) => {
            assert!(light.dimming.is_none());
            assert!(light.color_temperature.is_none());
            assert!(light.color.is_none());
            assert!(light.gradient.is_none());
            assert!(!light.effects);
        },
        _ => panic!("light missing"),
    }
    match res.get(&link(RType::Entertainment, "0x02")) {
        Some(Resource::Entertainment(e)) => {
            let segs = e.segments.as_ref().unwrap();
            assert_eq!(segs.max_segments, 1);
            assert_eq!(segs.segments.len(), 1);
        },
        _ => panic!("entertainment missing"),
    }
}

#[test]
fn add_light_twice_keeps_first_resources() {
    let mut be = backend(None);
    let mut res = Resources::new();
    let d = dev("desk", "0x02", None, None);
    be.add_light(&mut res, &d, &full_light()).unwrap();
    let before = res.get_resource_ids_by_type(RType::Light);
    // importing again, with fewer features, changes no resource
    be.add_light(&mut res, &d, &ExposeLight { features: vec![] }).unwrap();
    assert_eq!(res.get_resource_ids_by_type(RType::Light), before);
    match res.get(&link(RType::Light, "0x02")) {
        Some(Resource::Light(light)) => assert!(light.dimming.is_some()),
        _ => panic!("light missing"),
    }
}

#[test]
fn add_if_plug_skips_non_plugs() {
    let mut be = backend(None);
    let mut res = Resources::new();
    let d = dev("switch", "0x03", None, Some("RWL021"));
    assert!(be.add_if_plug(&mut res, &d).is_ok());
    assert!(res.get(&link(RType::Device, "0x03")).is_none());
    assert!(be.map.get(&"switch".to_string()).is_none());
}

#[test]
fn add_if_plug_adds_plug() {
    let mut be = backend(None);
    let mut res = Resources::new();
    let d = dev("plug", "0x04", Some("Signify Netherlands B.V."), Some("LOM001"));
    assert!(be.add_if_plug(&mut res, &d).is_ok());
    let ll = link(RType::Light, "0x04");
    assert_eq!(be.map.get(&"plug".to_string()), Some(&ll));
    match res.get(&ll) {
        Some(Resource::Light(light)) => {
            assert!(light.dimming.is_none());
            assert_eq!(light.metadata.archetype, DeviceArchetype::Plug);
        },
        _ => panic!("plug light missing"),
    }
    match res.get(&link(RType::Device, "0x04")) {
        Some(Resource::Device(device)) => assert_eq!(device.services.len(), 2),
        _ => panic!("device missing"),
    }
    assert!(res.get(&link(RType::Entertainment, "0x04")).is_none());
}

#[test]
fn add_button_creates_button() {
    let mut be = backend(None);
    let mut res = Resources::new();
    let d = dev("dimmer", "0x05", None, Some("RWL022"));
    assert!(be.add_button_at(&mut res, &d, Timestamp { secs: 1_700_000_000, nanos: 123_456_789 }).is_ok());
    let lb = link(RType::Button, "0x05");
    assert_eq!(be.map.get(&"0x05".to_string()), Some(&lb));
    assert_eq!(be.rmap.get(&lb).map(|s| s.as_str()), Some("dimmer"));
    match res.get(&lb) {
        Some(Resource::Button(b)) => {
            let report = b.button.button_report.as_ref().unwrap();
            assert_eq!(report.event, "initial_press");
            assert_eq!(report.updated, Timestamp { secs: 1_700_000_000, nanos: 123_456_789 });
            assert_eq!(b.button.repeat_interval, Some(100));
            assert_eq!(
                b.button.event_values.as_ref().unwrap(),
                &vec!["initial_press".to_string(), "repeat".to_string()]
            );
            assert_eq!(b.owner, link(RType::Device, "0x05"));
        },
        _ => panic!("button missing"),
    }
    match res.get(&link(RType::ZigbeeConnectivity, "0x05")) {
        Some(Resource::ZigbeeConnectivity(z)) => {
            assert_eq!(z.mac_address, "11:22:33:44:55:66:77:89");
            assert_eq!(z.status, ZigbeeConnectivityStatus::ConnectivityIssue);
            let ch = z.channel.as_ref().unwrap();
            assert_eq!(ch.status, "set");
            assert_eq!(ch.value, "channel_25");
        },
        _ => panic!("connectivity missing"),
    }
    match res.get(&link(RType::Device, "0x05")) {
        Some(Resource::Device(device)) => {
            assert_eq!(device.metadata.name, "foo");
            assert!(!device.identify);
        },
        _ => panic!("device missing"),
    }
}

fn group(name: &str, id: u32, members: &[&str], scenes: &[(u32, &str)]) -> Group {
    Group {
        friendly_name: name.to_string(),
        id,
        members: members
            .iter()
            .map(|a| GroupMember { ieee_address: a.to_string(), endpoint: 11 })
            .collect(),
        scenes: scenes.iter().map(|(i, n)| GroupScene { id: *i, name: n.to_string() }).collect(),
    }
}

#[test]
fn add_group_creates_room_and_scenes() {
    let mut be = backend(None);
    let mut res = Resources::new();
    let home = RType::BridgeHome.deterministic(IdSource::Text("home"));
    res.add(&home, Resource::BridgeHome(BridgeHome { children: vec![] })).unwrap();
    let g = group("living", 3, &["0x01", "0x02", "0x01"], &[(1, "Relax"), (2, "Movie")]);
    assert!(be.add_group(&mut res, &g).is_ok());

    let room = RType::Room.deterministic(IdSource::Text("living"));
    let glight = RType::GroupedLight.deterministic(IdSource::Id(room.rid));
    assert_eq!(be.map.get(&"living".to_string()), Some(&glight));
    assert_eq!(be.map.get(&"3".to_string()), Some(&glight));
    assert_eq!(be.rmap.get(&room).map(|s| s.as_str()), Some("living"));
    let r = res.get_room(&room).unwrap();
    assert_eq!(r.children.len(), 2);
    assert_eq!(r.metadata.name, "living");
    assert_eq!(r.metadata.archetype, RoomArchetype::Home);
    assert_eq!(r.services, vec![glight]);
    match res.get(&glight) {
        Some(Resource::GroupedLight(gl)) => assert_eq!(gl.owner, room),
        _ => panic!("grouped light missing"),
    }
    match res.get(&home) {
        Some(Resource::BridgeHome(h)) => assert_eq!(h.children, vec![room]),
        _ => panic!("home missing"),
    }
    let s1 = RType::Scene.deterministic(IdSource::IdIndex(room.rid, 1));
    match res.get(&s1) {
        Some(Resource::Scene(s)) => {
            assert_eq!(s.metadata.name, "Relax");
            assert_eq!(s.metadata.image, Some(SceneIcon::Relax));
            assert_eq!(s.group, room);
            assert_eq!(s.speed, 50);
            assert_eq!(s.active, SceneActive::Inactive);
        },
        _ => panic!("scene missing"),
    }
    let aux = res.aux_get(&s1).unwrap();
    assert_eq!(aux.topic.as_deref(), Some("living"));
    assert_eq!(aux.index, Some(1));
    let mut scenes = res.get_scenes_for_room(room.rid);
    scenes.sort();
    assert_eq!(scenes.len(), 2);
}

#[test]
fn add_group_again_merges_members_and_drops_orphan_scenes() {
    let mut be = backend(None);
    let mut res = Resources::new();
    be.add_group(&mut res, &group("living", 3, &["0x01"], &[(1, "Relax"), (2, "Movie")])).unwrap();
    be.add_group(&mut res, &group("living", 3, &["0x02"], &[(1, "Relax")])).unwrap();
    let room = RType::Room.deterministic(IdSource::Text("living"));
    let r = res.get_room(&room).unwrap();
    assert_eq!(r.children.len(), 2);
    assert_eq!(res.get_scenes_for_room(room.rid).len(), 1);
    let s2 = RType::Scene.deterministic(IdSource::IdIndex(room.rid, 2));
    assert!(res.get(&s2).is_none());
}

#[test]
fn add_group_outside_prefix_is_ignored() {
    let mut be = backend(Some("hue_"));
    let mut res = Resources::new();
    assert!(be.add_group(&mut res, &group("kitchen", 1, &["0x01"], &[])).is_ok());
    assert!(be.map.get(&"kitchen".to_string()).is_none());
    assert!(res.get_resource_ids_by_type(RType::Room).is_empty());
}

#[test]
fn add_group_strips_prefix_and_uses_room_config() {
    let mut rooms = AssocMap::new();
    rooms.insert(
        "hue_office".to_string(),
        RoomConfig { name: None, icon: Some(RoomArchetype::Office) },
    );
    let mut be = Z2mBackend::new(
        "z2m".to_string(),
        Z2mServer { group_prefix: Some("hue_".to_string()), plug_map: None },
        BridgeConfig { rooms },
    );
    let mut res = Resources::new();
    be.add_group(&mut res, &group("hue_kitchen", 1, &[], &[])).unwrap();
    be.add_group(&mut res, &group("hue_office", 2, &[], &[])).unwrap();
    let kitchen = res.get_room(&RType::Room.deterministic(IdSource::Text("hue_kitchen"))).unwrap();
    assert_eq!(kitchen.metadata.name, "kitchen");
    let office = res.get_room(&RType::Room.deterministic(IdSource::Text("hue_office"))).unwrap();
    assert_eq!(office.metadata.name, "office");
    assert_eq!(office.metadata.archetype, RoomArchetype::Office);
}

#[test]
fn plug_group_joins_room_of_light_group() {
    let mut plug_map = AssocMap::new();
    plug_map.insert("living_plugs".to_string(), "living".to_string());
    let mut be = Z2mBackend::new(
        "z2m".to_string(),
        Z2mServer { group_prefix: None, plug_map: Some(plug_map) },
        BridgeConfig { rooms: AssocMap::new() },
    );
    let mut res = Resources::new();
    be.add_group(&mut res, &group("living", 1, &["0x01"], &[(1, "Read")])).unwrap();
    be.add_group(&mut res, &group("living_plugs", 2, &["0x09"], &[(5, "Bright")])).unwrap();
    let room = RType::Room.deterministic(IdSource::Text("living"));
    let glight = RType::GroupedLight.deterministic(IdSource::Id(room.rid));
    assert_eq!(res.get_room(&room).unwrap().children.len(), 2);
    // the plug group's scenes are ignored
    assert_eq!(res.get_scenes_for_room(room.rid).len(), 1);
    assert_eq!(be.map.get(&"living_plugs".to_string()), Some(&glight));
    assert_eq!(res.aux_get(&glight).unwrap().topic.as_deref(), Some("living_plugs"));
    assert_eq!(res.get_resource_ids_by_type(RType::Room).len(), 1);
}

#[test]
fn scene_icons() {
    assert_eq!(guess_scene_icon("Bright"), Some(SceneIcon::Bright));
    assert_eq!(guess_scene_icon("Relax"), Some(SceneIcon::Relax));
    assert_eq!(guess_scene_icon("Night Light"), Some(SceneIcon::NightLight));
    assert_eq!(guess_scene_icon("Rest"), Some(SceneIcon::Rest));
    assert_eq!(guess_scene_icon("Concentrate"), Some(SceneIcon::Concentrate));
    assert_eq!(guess_scene_icon("Dimmed"), Some(SceneIcon::Dimmed));
    assert_eq!(guess_scene_icon("Energize"), Some(SceneIcon::Energize));
    assert_eq!(guess_scene_icon("Read"), Some(SceneIcon::Read));
    assert_eq!(guess_scene_icon("Cool Bright"), Some(SceneIcon::CoolBright));
    assert_eq!(guess_scene_icon("Night"), guess_scene_icon("Night Light"));
    assert_eq!(guess_scene_icon("Cool"), guess_scene_icon("Cool Bright"));
    assert_eq!(guess_scene_icon("Dim"), guess_scene_icon("Dimmed"));
    assert_eq!(guess_scene_icon("bright"), None);
    assert_eq!(guess_scene_icon("Movie"), None);
}

#[test]
fn add_button_twice_keeps_first_report() {
    let mut be = backend(None);
    let mut res = Resources::new();
    let d = dev("dimmer", "0x05", None, None);
    be.add_button_at(&mut res, &d, Timestamp { secs: 1000, nanos: 0 }).unwrap();
    let first = match res.get(&link(RType::Button, "0x05")) {
        Some(Resource::Button(b)) => b.button.button_report.as_ref().unwrap().updated,
        _ => panic!("button missing"),
    };
    assert_eq!(first, Timestamp { secs: 1000, nanos: 0 });
    be.add_button_at(&mut res, &d, Timestamp { secs: 2000, nanos: 500 }).unwrap();
    match res.get(&link(RType::Button, "0x05")) {
        Some(Resource::Button(b)) => assert_eq!(b.button.button_report.as_ref().unwrap().updated, first),
        _ => panic!("button missing"),
    }
    assert_eq!(res.get_resource_ids_by_type(RType::Button).len(), 1);
}

#[test]
fn add_plug_twice_changes_nothing() {
    let mut be = backend(None);
    let mut res = Resources::new();
    let d = dev("plug", "0x04", None, Some("3RSP02028BZ"));
    be.add_if_plug(&mut res, &d).unwrap();
    let lights = res.get_resource_ids_by_type(RType::Light);
    let devices = res.get_resource_ids_by_type(RType::Device);
    be.add_if_plug(&mut res, &d).unwrap();
    assert_eq!(res.get_resource_ids_by_type(RType::Light), lights);
    assert_eq!(res.get_resource_ids_by_type(RType::Device), devices);
    assert_eq!(lights.len(), 1);
}

#[test]
fn add_same_group_twice_changes_nothing_more() {
    let mut be = backend(None);
    let mut res = Resources::new();
    let home = RType::BridgeHome.deterministic(IdSource::Text("home"));
    res.add(&home, Resource::BridgeHome(BridgeHome { children: vec![] })).unwrap();
    let g = group("living", 3, &["0x01", "0x02"], &[(1, "Relax"), (2, "Movie")]);
    be.add_group(&mut res, &g).unwrap();
    let room = RType::Room.deterministic(IdSource::Text("living"));
    let children = res.get_room(&room).unwrap().children.clone();
    let mut scenes = res.get_scenes_for_room(room.rid);
    scenes.sort();
    let rooms = res.get_resource_ids_by_type(RType::Room);
    be.add_group(&mut res, &g).unwrap();
    let r = res.get_room(&room).unwrap();
    assert_eq!(r.children, children);
    assert_eq!(r.metadata.name, "living");
    let mut again = res.get_scenes_for_room(room.rid);
    again.sort();
    assert_eq!(again, scenes);
    assert_eq!(res.get_resource_ids_by_type(RType::Room), rooms);
    match res.get(&home) {
        Some(Resource::BridgeHome(h)) => assert_eq!(h.children, vec![room]),
        _ => panic!("home missing"),
    }
}
