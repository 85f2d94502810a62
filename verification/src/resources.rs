//! Hue API resources and the store that holds them, keyed by resource link.

use vstd::prelude::*;

use crate::hue_api::{
    ColorTemperature, DeviceArchetype, DeviceProductData, DeviceProductDataView, Dimming,
    LightColor, LightGradient, LightGradientView,
};
use crate::ids::{RType, ResourceLink};
use crate::text::opt_chars;

verus! {

/// Adds `link` to a list of links, unless it is already there.
pub fn insert_link(set: &mut Vec<ResourceLink>, link: ResourceLink)
    ensures
        old(set)@.no_duplicates() ==> final(set)@.no_duplicates(),
        final(set)@.to_set() == old(set)@.to_set().insert(link),
{
    let mut i: usize = 0;
    while i < set.len()
        invariant
            i <= set@.len(),
            forall|j: int| 0 <= j < i ==> set@[j] != link,
        decreases set@.len() - i,
    {
        if set[i] == link {
            proof {
                assert(set@.to_set().contains(link));
                assert(set@.to_set().insert(link) =~= set@.to_set());
            }
            return;
        }
        i = i + 1;
    }
    let ghost before = set@;
    set.push(link);
    proof {
        before.lemma_push_to_set_commute(link);
    }
}

/// Adds every link of `more` to `set` that is not there yet.
pub fn extend_links(set: &mut Vec<ResourceLink>, more: &Vec<ResourceLink>)
    ensures
        old(set)@.no_duplicates() ==> final(set)@.no_duplicates(),
        final(set)@.to_set() == old(set)@.to_set().union(more@.to_set()),
{
    let ghost start = set@.to_set();
    let ghost start_nd = set@.no_duplicates();
    let mut i: usize = 0;
    while i < more.len()
        invariant
            i <= more@.len(),
            start_nd ==> set@.no_duplicates(),
            set@.to_set() == start.union(more@.take(i as int).to_set()),
        decreases more@.len() - i,
    {
        insert_link(set, more[i]);
        proof {
            assert(more@.take(i + 1) =~= more@.take(i as int).push(more@[i as int]));
            more@.take(i as int).lemma_push_to_set_commute(more@[i as int]);
            assert(set@.to_set() =~= start.union(more@.take(i + 1).to_set()));
        }
        i = i + 1;
    }
    assert(more@.take(more@.len() as int) =~= more@);
}

/// Name and archetype of a device.
#[derive(Clone, Debug)]
pub struct Metadata {
    pub archetype: DeviceArchetype,
    pub name: String,
}

/// A device.
#[derive(Debug)]
pub struct Device {
    pub product_data: DeviceProductData,
    pub metadata: Metadata,
    /// The services of the device, each once.
    pub services: Vec<ResourceLink>,
    /// Whether the device offers the identify action.
    pub identify: bool,
}

/// Name and archetype of a light.
#[derive(Clone, Debug)]
pub struct LightMetadata {
    pub archetype: DeviceArchetype,
    pub name: String,
}

/// A light and its capabilities.
#[derive(Debug)]
pub struct Light {
    pub owner: ResourceLink,
    pub metadata: LightMetadata,
    pub dimming: Option<Dimming>,
    pub color_temperature: Option<ColorTemperature>,
    pub color: Option<LightColor>,
    pub gradient: Option<LightGradient>,
    /// Whether all (version 1) light effects are offered.
    pub effects: bool,
    /// Whether all (version 2) light effects are offered.
    pub effects_v2: bool,
}

impl Light {
    /// A light of `owner` with no capabilities beyond on/off.
    pub fn new(owner: ResourceLink, metadata: LightMetadata) -> (r: Light)
        ensures
            r.owner == owner,
            r.metadata == metadata,
            r.dimming is None,
            r.color_temperature is None,
            r.color is None,
            r.gradient is None,
            !r.effects,
            !r.effects_v2,
    {
        Light {
            owner,
            metadata,
            dimming: None,
            color_temperature: None,
            color: None,
            gradient: None,
            effects: false,
            effects_v2: false,
        }
    }
}

/// A segment of an entertainment light.
#[derive(Clone, Copy, Debug, PartialEq, Eq, Structural)]
pub struct EntertainmentSegment {
    pub start: u32,
    pub length: u32,
}

/// The segments of an entertainment light.
#[derive(Debug)]
pub struct EntertainmentSegments {
    pub configurable: bool,
    pub max_segments: u32,
    pub segments: Vec<EntertainmentSegment>,
}

/// The entertainment service of a light.
#[derive(Debug)]
pub struct Entertainment {
    pub equalizer: bool,
    pub owner: ResourceLink,
    pub proxy: bool,
    pub renderer: bool,
    pub max_streams: Option<u32>,
    pub renderer_reference: Option<ResourceLink>,
    pub segments: Option<EntertainmentSegments>,
}

/// A service seen on Hue entertainment devices, of unknown purpose.
#[derive(Debug)]
pub struct Taurus {
    pub capabilities: Vec<String>,
    pub owner: ResourceLink,
}

/// The state of a Zigbee link.
#[derive(Clone, Copy, Debug, PartialEq, Eq, Structural)]
pub enum ZigbeeConnectivityStatus {
    Connected,
    Disconnected,
    ConnectivityIssue,
    UnidirectionalIncoming,
}

/// The Zigbee channel setting of a device.
#[derive(Clone, Debug)]
pub struct ZigbeeChannel {
    pub status: String,
    pub value: String,
}

/// The Zigbee connectivity service of a device.
#[derive(Debug)]
pub struct ZigbeeConnectivity {
    pub channel: Option<ZigbeeChannel>,
    pub extended_pan_id: Option<String>,
    pub mac_address: String,
    pub owner: ResourceLink,
    pub status: ZigbeeConnectivityStatus,
}

/// A point in time: whole seconds since the Unix epoch, and the nanoseconds
/// past that second.
#[derive(Clone, Copy, Debug, PartialEq, Eq, Structural)]
pub struct Timestamp {
    pub secs: i64,
    pub nanos: u32,
}

/// The last reported press of a button.
#[derive(Debug)]
pub struct ButtonReport {
    /// When it was reported.
    pub updated: Timestamp,
    pub event: String,
}

/// The state of a button.
#[derive(Debug)]
pub struct ButtonData {
    pub last_event: Option<String>,
    pub button_report: Option<ButtonReport>,
    pub repeat_interval: Option<u32>,
    pub event_values: Option<Vec<String>>,
}

/// The control a button belongs to.
#[derive(Clone, Copy, Debug)]
pub struct ButtonMetadata {
    pub control_id: u32,
}

/// A button.
#[derive(Debug)]
pub struct Button {
    pub owner: ResourceLink,
    pub metadata: ButtonMetadata,
    pub button: ButtonData,
}

/// The kind of a room.
#[derive(Clone, Copy, Debug, PartialEq, Eq, Structural)]
pub enum RoomArchetype {
    Home,
    LivingRoom,
    Kitchen,
    Dining,
    Bedroom,
    Bathroom,
    Office,
    Garden,
    Other,
}

/// Name and archetype of a room.
#[derive(Clone, Debug)]
pub struct RoomMetadata {
    pub archetype: RoomArchetype,
    pub name: String,
}

/// A room.
#[derive(Debug)]
pub struct Room {
    /// The devices in the room, each once.
    pub children: Vec<ResourceLink>,
    pub metadata: RoomMetadata,
    /// The services of the room, each once.
    pub services: Vec<ResourceLink>,
}

/// The light service that controls all lights of a room together.
#[derive(Debug)]
pub struct GroupedLight {
    pub owner: ResourceLink,
}

impl GroupedLight {
    /// The grouped light of `owner`.
    pub fn new(owner: ResourceLink) -> (r: GroupedLight)
        ensures
            r.owner == owner,
    {
        GroupedLight { owner }
    }
}

/// One of the built-in Hue scene images.
#[derive(Clone, Copy, Debug, PartialEq, Eq, Structural)]
pub enum SceneIcon {
    Bright,
    Relax,
    NightLight,
    Rest,
    Concentrate,
    Dimmed,
    Energize,
    Read,
    CoolBright,
}

/// Whether a scene is active.
#[derive(Clone, Copy, Debug, PartialEq, Eq, Structural)]
pub enum SceneActive {
    Inactive,
    Static,
    DynamicPalette,
}

/// Name and image of a scene.
#[derive(Debug)]
pub struct SceneMetadata {
    pub appdata: Option<String>,
    pub image: Option<SceneIcon>,
    pub name: String,
}

/// A scene of a room (with no actions and an empty palette).
#[derive(Debug)]
pub struct Scene {
    pub auto_dynamic: bool,
    pub group: ResourceLink,
    pub metadata: SceneMetadata,
    /// Palette speed, in hundredths.
    pub speed: u32,
    pub active: SceneActive,
}

/// The bridge's home: the room that holds all rooms.
#[derive(Debug)]
pub struct BridgeHome {
    /// The rooms, each once.
    pub children: Vec<ResourceLink>,
}

/// A resource of any type.
#[derive(Debug)]
pub enum Resource {
    BridgeHome(BridgeHome),
    Button(Button),
    Device(Device),
    Entertainment(Entertainment),
    GroupedLight(GroupedLight),
    Light(Light),
    Room(Room),
    Scene(Scene),
    Taurus(Taurus),
    ZigbeeConnectivity(ZigbeeConnectivity),
}

impl Resource {
    /// The type of this resource.
    pub open spec fn spec_rtype(&self) -> RType {
        match self {
            Resource::BridgeHome(_) => RType::BridgeHome,
            Resource::Button(_) => RType::Button,
            Resource::Device(_) => RType::Device,
            Resource::Entertainment(_) => RType::Entertainment,
            Resource::GroupedLight(_) => RType::GroupedLight,
            Resource::Light(_) => RType::Light,
            Resource::Room(_) => RType::Room,
            Resource::Scene(_) => RType::Scene,
            Resource::Taurus(_) => RType::Taurus,
            Resource::ZigbeeConnectivity(_) => RType::ZigbeeConnectivity,
        }
    }

    /// The type of this resource.
    pub fn rtype(&self) -> (r: RType)
        ensures
            r == self.spec_rtype(),
    {
        match self {
            Resource::BridgeHome(_) => RType::BridgeHome,
            Resource::Button(_) => RType::Button,
            Resource::Device(_) => RType::Device,
            Resource::Entertainment(_) => RType::Entertainment,
            Resource::GroupedLight(_) => RType::GroupedLight,
            Resource::Light(_) => RType::Light,
            Resource::Room(_) => RType::Room,
            Resource::Scene(_) => RType::Scene,
            Resource::Taurus(_) => RType::Taurus,
            Resource::ZigbeeConnectivity(_) => RType::ZigbeeConnectivity,
        }
    }
}

/// Extra data kept beside a resource: the topic and index used to address it on zigbee2mqtt.
#[derive(Clone, Debug)]
pub struct AuxData {
    pub topic: Option<String>,
    pub index: Option<u32>,
}

impl AuxData {
    /// No topic and no index.
    pub fn new() -> (r: AuxData)
        ensures
            r.topic is None,
            r.index is None,
    {
        AuxData { topic: None, index: None }
    }

    /// The same data with topic `topic`.
    pub fn with_topic(self, topic: &str) -> (r: AuxData)
        ensures
            r.topic matches Some(t) && t@ == topic@,
            r.index == self.index,
    {
        AuxData { topic: Some(topic.to_string()), index: self.index }
    }

    /// The same data with index `index`.
    pub fn with_index(self, index: u32) -> (r: AuxData)
        ensures
            r.topic == self.topic,
            r.index == Some(index),
    {
        AuxData { topic: self.topic, index: Some(index) }
    }
}


/// The characters of each of a list of texts.
pub open spec fn strings_view(v: Seq<String>) -> Seq<Seq<char>> {
    v.map_values(|s: String| s@)
}

/// Name and archetype, as character sequence and value.
pub ghost struct MetadataView {
    pub archetype: DeviceArchetype,
    pub name: Seq<char>,
}

impl View for Metadata {
    type V = MetadataView;

    open spec fn view(&self) -> MetadataView {
        MetadataView { archetype: self.archetype, name: self.name@ }
    }
}

impl View for LightMetadata {
    type V = MetadataView;

    open spec fn view(&self) -> MetadataView {
        MetadataView { archetype: self.archetype, name: self.name@ }
    }
}

/// The value of a [`Device`]; its services as a set.
pub ghost struct DeviceView {
    pub product_data: DeviceProductDataView,
    pub metadata: MetadataView,
    pub services: Set<ResourceLink>,
    pub identify: bool,
}

impl View for Device {
    type V = DeviceView;

    open spec fn view(&self) -> DeviceView {
        DeviceView {
            product_data: self.product_data@,
            metadata: self.metadata@,
            services: self.services@.to_set(),
            identify: self.identify,
        }
    }
}

/// The value of a [`Light`].
pub ghost struct LightView {
    pub owner: ResourceLink,
    pub metadata: MetadataView,
    pub dimming: Option<Dimming>,
    pub color_temperature: Option<ColorTemperature>,
    pub color: Option<LightColor>,
    pub gradient: Option<LightGradientView>,
    pub effects: bool,
    pub effects_v2: bool,
}

impl View for Light {
    type V = LightView;

    open spec fn view(&self) -> LightView {
        LightView {
            owner: self.owner,
            metadata: self.metadata@,
            dimming: self.dimming,
            color_temperature: self.color_temperature,
            color: self.color,
            gradient: match self.gradient {
                Some(g) => Some(g@),
                None => None,
            },
            effects: self.effects,
            effects_v2: self.effects_v2,
        }
    }
}

/// The value of [`EntertainmentSegments`].
pub ghost struct EntertainmentSegmentsView {
    pub configurable: bool,
    pub max_segments: u32,
    pub segments: Seq<EntertainmentSegment>,
}

impl View for EntertainmentSegments {
    type V = EntertainmentSegmentsView;

    open spec fn view(&self) -> EntertainmentSegmentsView {
        EntertainmentSegmentsView {
            configurable: self.configurable,
            max_segments: self.max_segments,
            segments: self.segments@,
        }
    }
}

/// The value of an [`Entertainment`] service.
pub ghost struct EntertainmentView {
    pub equalizer: bool,
    pub owner: ResourceLink,
    pub proxy: bool,
    pub renderer: bool,
    pub max_streams: Option<u32>,
    pub renderer_reference: Option<ResourceLink>,
    pub segments: Option<EntertainmentSegmentsView>,
}

impl View for Entertainment {
    type V = EntertainmentView;

    open spec fn view(&self) -> EntertainmentView {
        EntertainmentView {
            equalizer: self.equalizer,
            owner: self.owner,
            proxy: self.proxy,
            renderer: self.renderer,
            max_streams: self.max_streams,
            renderer_reference: self.renderer_reference,
            segments: match self.segments {
                Some(s) => Some(s@),
                None => None,
            },
        }
    }
}

/// The value of a [`Taurus`] service.
pub ghost struct TaurusView {
    pub capabilities: Seq<Seq<char>>,
    pub owner: ResourceLink,
}

impl View for Taurus {
    type V = TaurusView;

    open spec fn view(&self) -> TaurusView {
        TaurusView { capabilities: strings_view(self.capabilities@), owner: self.owner }
    }
}

/// The value of a [`ZigbeeChannel`].
pub ghost struct ZigbeeChannelView {
    pub status: Seq<char>,
    pub value: Seq<char>,
}

impl View for ZigbeeChannel {
    type V = ZigbeeChannelView;

    open spec fn view(&self) -> ZigbeeChannelView {
        ZigbeeChannelView { status: self.status@, value: self.value@ }
    }
}

/// The value of a [`ZigbeeConnectivity`] service.
pub ghost struct ZigbeeConnectivityView {
    pub channel: Option<ZigbeeChannelView>,
    pub extended_pan_id: Option<Seq<char>>,
    pub mac_address: Seq<char>,
    pub owner: ResourceLink,
    pub status: ZigbeeConnectivityStatus,
}

impl View for ZigbeeConnectivity {
    type V = ZigbeeConnectivityView;

    open spec fn view(&self) -> ZigbeeConnectivityView {
        ZigbeeConnectivityView {
            channel: match self.channel {
                Some(c) => Some(c@),
                None => None,
            },
            extended_pan_id: opt_chars(self.extended_pan_id),
            mac_address: self.mac_address@,
            owner: self.owner,
            status: self.status,
        }
    }
}

/// The value of a [`ButtonReport`].
pub ghost struct ButtonReportView {
    pub updated: Timestamp,
    pub event: Seq<char>,
}

/// The value of a [`Button`].
pub ghost struct ButtonView {
    pub owner: ResourceLink,
    pub control_id: u32,
    pub last_event: Option<Seq<char>>,
    pub button_report: Option<ButtonReportView>,
    pub repeat_interval: Option<u32>,
    pub event_values: Option<Seq<Seq<char>>>,
}

impl View for Button {
    type V = ButtonView;

    open spec fn view(&self) -> ButtonView {
        ButtonView {
            owner: self.owner,
            control_id: self.metadata.control_id,
            last_event: opt_chars(self.button.last_event),
            button_report: match self.button.button_report {
                Some(r) => Some(ButtonReportView { updated: r.updated, event: r.event@ }),
                None => None,
            },
            repeat_interval: self.button.repeat_interval,
            event_values: match self.button.event_values {
                Some(v) => Some(strings_view(v@)),
                None => None,
            },
        }
    }
}

/// Name and archetype of a room, as character sequence and value.
pub ghost struct RoomMetadataView {
    pub archetype: RoomArchetype,
    pub name: Seq<char>,
}

impl View for RoomMetadata {
    type V = RoomMetadataView;

    open spec fn view(&self) -> RoomMetadataView {
        RoomMetadataView { archetype: self.archetype, name: self.name@ }
    }
}

/// The value of a [`Room`]; its children and services as sets.
pub ghost struct RoomView {
    pub children: Set<ResourceLink>,
    pub metadata: RoomMetadataView,
    pub services: Set<ResourceLink>,
}

impl View for Room {
    type V = RoomView;

    open spec fn view(&self) -> RoomView {
        RoomView {
            children: self.children@.to_set(),
            metadata: self.metadata@,
            services: self.services@.to_set(),
        }
    }
}

/// The value of a [`Scene`].
pub ghost struct SceneView {
    pub auto_dynamic: bool,
    pub group: ResourceLink,
    pub appdata: Option<Seq<char>>,
    pub image: Option<SceneIcon>,
    pub name: Seq<char>,
    pub speed: u32,
    pub active: SceneActive,
}

impl View for Scene {
    type V = SceneView;

    open spec fn view(&self) -> SceneView {
        SceneView {
            auto_dynamic: self.auto_dynamic,
            group: self.group,
            appdata: opt_chars(self.metadata.appdata),
            image: self.metadata.image,
            name: self.metadata.name@,
            speed: self.speed,
            active: self.active,
        }
    }
}

/// The value of a resource.
pub ghost enum ResourceView {
    BridgeHome(Set<ResourceLink>),
    Button(ButtonView),
    Device(DeviceView),
    Entertainment(EntertainmentView),
    GroupedLight(ResourceLink),
    Light(LightView),
    Room(RoomView),
    Scene(SceneView),
    Taurus(TaurusView),
    ZigbeeConnectivity(ZigbeeConnectivityView),
}

impl View for Resource {
    type V = ResourceView;

    open spec fn view(&self) -> ResourceView {
        match self {
            Resource::BridgeHome(b) => ResourceView::BridgeHome(b.children@.to_set()),
            Resource::Button(b) => ResourceView::Button(b@),
            Resource::Device(d) => ResourceView::Device(d@),
            Resource::Entertainment(e) => ResourceView::Entertainment(e@),
            Resource::GroupedLight(g) => ResourceView::GroupedLight(g.owner),
            Resource::Light(l) => ResourceView::Light(l@),
            Resource::Room(r) => ResourceView::Room(r@),
            Resource::Scene(s) => ResourceView::Scene(s@),
            Resource::Taurus(t) => ResourceView::Taurus(t@),
            Resource::ZigbeeConnectivity(z) => ResourceView::ZigbeeConnectivity(z@),
        }
    }
}

impl ResourceView {
    /// The type of the resource.
    pub open spec fn rtype(self) -> RType {
        match self {
            ResourceView::BridgeHome(_) => RType::BridgeHome,
            ResourceView::Button(_) => RType::Button,
            ResourceView::Device(_) => RType::Device,
            ResourceView::Entertainment(_) => RType::Entertainment,
            ResourceView::GroupedLight(_) => RType::GroupedLight,
            ResourceView::Light(_) => RType::Light,
            ResourceView::Room(_) => RType::Room,
            ResourceView::Scene(_) => RType::Scene,
            ResourceView::Taurus(_) => RType::Taurus,
            ResourceView::ZigbeeConnectivity(_) => RType::ZigbeeConnectivity,
        }
    }
}

/// The value of [`AuxData`].
pub ghost struct AuxDataView {
    pub topic: Option<Seq<char>>,
    pub index: Option<u32>,
}

impl View for AuxData {
    type V = AuxDataView;

    open spec fn view(&self) -> AuxDataView {
        AuxDataView { topic: opt_chars(self.topic), index: self.index }
    }
}

/// Why a store operation did not apply.
#[derive(Clone, Copy, Debug, PartialEq, Eq, Structural)]
pub enum ResourceError {
    /// No resource of the expected type is stored under the link.
    NotFound,
    /// The resource's type differs from the type of the link it was given under.
    WrongType,
}

} // verus!
