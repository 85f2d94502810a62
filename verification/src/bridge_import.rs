//! Importing zigbee2mqtt devices and groups as Hue API resources.

use vstd::prelude::*;

use crate::assoc::AssocMap;
use crate::convert::{
    spec_color_temperature, spec_dimming, spec_guess_product_data, spec_light_color,
    spec_light_gradient, ExtractColorTemperature, ExtractDeviceProductData, ExtractDimming,
    ExtractLightColor, ExtractLightGradient,
};
use crate::hue_api::{
    signify_manufacturer_name, spec_signify_manufacturer_name, ColorTemperature, DeviceArchetype,
    DeviceProductData, Dimming, LightColor, LightGradient,
};
use crate::ids::{spec_deterministic, text_link, IdKey, IdSource, RType, ResourceLink};
use crate::resources::{
    insert_link, AuxData, AuxDataView, Button, Entertainment, EntertainmentSegment,
    EntertainmentSegments, EntertainmentSegmentsView, EntertainmentView, Light, LightMetadata,
    LightView, Taurus, TaurusView, ButtonData, ButtonMetadata, ButtonReport, ButtonReportView, Timestamp,
    ButtonView, Device, DeviceView, strings_view, Metadata, MetadataView, Resource, ResourceError, ResourceView,
    GroupedLight, Room, RoomArchetype, RoomMetadata, RoomMetadataView, RoomView, Scene,
    SceneActive, SceneIcon, SceneMetadata, SceneView, ZigbeeChannel, ZigbeeChannelView, ZigbeeConnectivity,
    ZigbeeConnectivityStatus, ZigbeeConnectivityView,
};
use crate::store::{links_of_type, scene_link, scene_rids, spec_add, Resources};
use crate::text::{decimal, opt_chars, str_eq, strip_prefix, u32_to_string};
use crate::z2m_api;
use crate::z2m_api::{spec_feature, spec_first_gradient, Expose, ExposeLight, Group, GroupScene};

verus! {

broadcast use vstd::string::group_string_axioms;

/// Configuration of one room: a name and icon to use in place of the defaults.
pub struct RoomConfig {
    pub name: Option<String>,
    pub icon: Option<RoomArchetype>,
}

/// Configuration of the zigbee2mqtt server a backend talks to.
pub struct Z2mServer {
    /// Only groups whose name starts with this prefix are imported, and the
    /// prefix is left out of their room names.
    pub group_prefix: Option<String>,
    /// Groups of plugs, each mapped to the name of the group of lights it belongs with.
    pub plug_map: Option<AssocMap<String, String>>,
}

/// Configuration of the bridge.
pub struct BridgeConfig {
    /// Per-room configuration, keyed by group topic.
    pub rooms: AssocMap<String, RoomConfig>,
}

/// A zigbee2mqtt backend: its configuration and the mapping between
/// zigbee2mqtt names and Hue resources.
pub struct Z2mBackend {
    pub name: String,
    pub server: Z2mServer,
    pub config: BridgeConfig,
    /// zigbee2mqtt names (and addresses, and group ids) to the resource that handles them.
    pub map: AssocMap<String, ResourceLink>,
    /// Resources to the zigbee2mqtt topic they are addressed by.
    pub rmap: AssocMap<ResourceLink, String>,
}

impl Z2mBackend {
    /// The reverse mapping, with topics as character sequences.
    pub open spec fn rmap_view(&self) -> Map<ResourceLink, Seq<char>> {
        self.rmap.view().map_values(|s: String| s@)
    }

    /// A backend with the given configuration and nothing imported yet.
    pub fn new(name: String, server: Z2mServer, config: BridgeConfig) -> (r: Z2mBackend)
        ensures
            r.name == name,
            r.server == server,
            r.config == config,
            r.map.view() == Map::<Seq<char>, ResourceLink>::empty(),
            r.rmap_view() == Map::<ResourceLink, Seq<char>>::empty(),
    {
        let r = Z2mBackend { name, server, config, map: AssocMap::new(), rmap: AssocMap::new() };
        assert(r.rmap_view() =~= Map::<ResourceLink, Seq<char>>::empty());
        r
    }

    fn rmap_insert(&mut self, link: ResourceLink, topic: String)
        ensures
            final(self).rmap_view() == old(self).rmap_view().insert(link, topic@),
            final(self).map == old(self).map,
            final(self).name == old(self).name,
            final(self).server == old(self).server,
            final(self).config == old(self).config,
    {
        let ghost before = self.rmap.view();
        let ghost tv = topic@;
        self.rmap.insert(link, topic);
        assert(self.rmap_view() =~= before.map_values(|s: String| s@).insert(link, tv));
    }
}

/// The view of a button device imported from `dev`.
pub open spec fn button_device_view(dev: &z2m_api::Device) -> DeviceView {
    let a = dev.ieee_address@;
    DeviceView {
        product_data: spec_guess_product_data(dev),
        metadata: MetadataView { archetype: DeviceArchetype::UnknownArchetype, name: "foo"@ },
        services: set![text_link(RType::Button, a), text_link(RType::ZigbeeConnectivity, a)],
        identify: false,
    }
}

/// The view of a button of `owner`, last reported pressed at `updated`.
pub open spec fn button_view(owner: ResourceLink, updated: Timestamp) -> ButtonView {
    ButtonView {
        owner,
        control_id: 0,
        last_event: None,
        button_report: Some(ButtonReportView { updated, event: "initial_press"@ }),
        repeat_interval: Some(100),
        event_values: Some(seq!["initial_press"@, "repeat"@]),
    }
}

/// The view of the Zigbee connectivity service of an imported button.
pub open spec fn button_connectivity_view(owner: ResourceLink) -> ZigbeeConnectivityView {
    ZigbeeConnectivityView {
        channel: Some(ZigbeeChannelView { status: "set"@, value: "channel_25"@ }),
        extended_pan_id: None,
        mac_address: "11:22:33:44:55:66:77:89"@,
        owner,
        status: ZigbeeConnectivityStatus::ConnectivityIssue,
    }
}

/// The store after importing the button device `dev` (last reported pressed at `updated`).
pub open spec fn store_with_button(
    m: Map<ResourceLink, ResourceView>,
    dev: &z2m_api::Device,
    updated: Timestamp,
) -> Map<ResourceLink, ResourceView> {
    let a = dev.ieee_address@;
    let link_device = text_link(RType::Device, a);
    let m1 = spec_add(m, link_device, ResourceView::Device(button_device_view(dev)));
    let m2 = spec_add(
        m1,
        text_link(RType::Button, a),
        ResourceView::Button(button_view(link_device, updated)),
    );
    spec_add(
        m2,
        text_link(RType::ZigbeeConnectivity, a),
        ResourceView::ZigbeeConnectivity(button_connectivity_view(link_device)),
    )
}

impl Z2mBackend {
    /// Imports a button device: a device with a button and a Zigbee connectivity
    /// service, addressed by the device's name and by its address. The button
    /// reports an initial press at `updated`.
    pub fn add_button_at(
        &mut self,
        res: &mut Resources,
        apidev: &z2m_api::Device,
        updated: Timestamp,
    ) -> (r: Result<(), ResourceError>)
        ensures
            r is Ok,
            final(self).map.view() == old(self).map.view().insert(
                apidev.friendly_name@,
                text_link(RType::Button, apidev.ieee_address@),
            ).insert(apidev.ieee_address@, text_link(RType::Button, apidev.ieee_address@)),
            final(self).rmap_view() == old(self).rmap_view().insert(
                text_link(RType::Button, apidev.ieee_address@),
                apidev.friendly_name@,
            ),
            final(self).name == old(self).name,
            final(self).server == old(self).server,
            final(self).config == old(self).config,
            final(res).resources() == store_with_button(old(res).resources(), apidev, updated),
            final(res).aux_data() == old(res).aux_data(),
    {
        let name = &apidev.friendly_name;
        let addr = apidev.ieee_address.as_str();

        let link_device = RType::Device.deterministic(IdSource::Text(addr));
        let link_button = RType::Button.deterministic(IdSource::Text(addr));
        let link_zbc = RType::ZigbeeConnectivity.deterministic(IdSource::Text(addr));

        let mut services = Vec::new();
        insert_link(&mut services, link_button);
        insert_link(&mut services, link_zbc);
        let dev = Device {
            product_data: DeviceProductData::guess_from_device(apidev),
            metadata: Metadata { archetype: DeviceArchetype::UnknownArchetype, name: "foo".to_string() },
            services,
            identify: false,
        };
        assert(dev.services@.to_set() =~= set![link_button, link_zbc]);
        assert(dev@ == button_device_view(apidev));

        self.map.insert(name.clone(), link_button);
        self.map.insert(apidev.ieee_address.clone(), link_button);
        self.rmap_insert(link_button, name.clone());

        let mut event_values = Vec::new();
        event_values.push("initial_press".to_string());
        event_values.push("repeat".to_string());
        assert(strings_view(event_values@) =~= seq!["initial_press"@, "repeat"@]);
        let button = Button {
            owner: link_device,
            metadata: ButtonMetadata { control_id: 0 },
            button: ButtonData {
                last_event: None,
                button_report: Some(ButtonReport { updated, event: "initial_press".to_string() }),
                repeat_interval: Some(100),
                event_values: Some(event_values),
            },
        };
        assert(button@ == button_view(link_device, updated));

        let zbc = ZigbeeConnectivity {
            owner: link_device,
            mac_address: "11:22:33:44:55:66:77:89".to_string(),
            status: ZigbeeConnectivityStatus::ConnectivityIssue,
            channel: Some(ZigbeeChannel { status: "set".to_string(), value: "channel_25".to_string() }),
            extended_pan_id: None,
        };
        assert(zbc@ == button_connectivity_view(link_device));

        let ghost m0 = res.resources();
        res.add(&link_device, Resource::Device(dev))?;
        res.add(&link_button, Resource::Button(button))?;
        res.add(&link_zbc, Resource::ZigbeeConnectivity(zbc))?;
        assert(res.resources() == store_with_button(m0, apidev, updated));
        Ok(())
    }
}

/// Name and archetype of a light imported from `dev`.
pub open spec fn light_metadata_view(dev: &z2m_api::Device) -> MetadataView {
    MetadataView {
        archetype: spec_guess_product_data(dev).product_archetype,
        name: dev.friendly_name@,
    }
}

/// The aux data addressing a resource by the zigbee2mqtt topic `topic`.
pub open spec fn topic_aux(topic: Seq<char>) -> AuxDataView {
    AuxDataView { topic: Some(topic), index: None }
}

/// The view of the Zigbee connectivity service of an imported light or plug.
pub open spec fn light_connectivity_view(owner: ResourceLink, address: Seq<char>) -> ZigbeeConnectivityView {
    ZigbeeConnectivityView {
        channel: None,
        extended_pan_id: None,
        mac_address: address,
        owner,
        status: ZigbeeConnectivityStatus::Connected,
    }
}

/// Whether the device `dev` is imported as a plug.
pub open spec fn is_plug(dev: &z2m_api::Device) -> bool {
    spec_guess_product_data(dev).product_archetype == DeviceArchetype::Plug
}

/// The store after importing the plug `dev`.
pub open spec fn store_with_plug(m: Map<ResourceLink, ResourceView>, dev: &z2m_api::Device) -> Map<
    ResourceLink,
    ResourceView,
> {
    let a = dev.ieee_address@;
    let link_device = text_link(RType::Device, a);
    let link_light = text_link(RType::Light, a);
    let link_zigcon = text_link(RType::ZigbeeConnectivity, a);
    let device = DeviceView {
        product_data: spec_guess_product_data(dev),
        metadata: light_metadata_view(dev),
        services: set![link_zigcon, link_light],
        identify: true,
    };
    let light = LightView {
        owner: link_device,
        metadata: light_metadata_view(dev),
        dimming: None,
        color_temperature: None,
        color: None,
        gradient: None,
        effects: false,
        effects_v2: false,
    };
    let m1 = spec_add(m, link_device, ResourceView::Device(device));
    let m2 = spec_add(m1, link_light, ResourceView::Light(light));
    spec_add(
        m2,
        link_zigcon,
        ResourceView::ZigbeeConnectivity(light_connectivity_view(link_device, a)),
    )
}

/// The capability read from the feature of `expose` named `name`, by `extract`.
pub open spec fn feature_capability<T>(
    expose: ExposeLight,
    name: Seq<char>,
    extract: spec_fn(Expose) -> Option<T>,
) -> Option<T> {
    match spec_feature(expose.features@, name) {
        Some(e) => extract(e),
        None => None,
    }
}

/// Whether lights of `dev` get the Hue light effects: those made by Signify.
pub open spec fn has_effects(dev: &z2m_api::Device) -> bool {
    opt_chars(dev.manufacturer) == Some(spec_signify_manufacturer_name())
}

/// The view of the light imported from `dev` with features `expose`.
pub open spec fn light_view(dev: &z2m_api::Device, expose: ExposeLight) -> LightView {
    LightView {
        owner: text_link(RType::Device, dev.ieee_address@),
        metadata: light_metadata_view(dev),
        dimming: feature_capability(expose, "brightness"@, |e: Expose| spec_dimming(e)),
        color_temperature: feature_capability(
            expose,
            "color_temp"@,
            |e: Expose| spec_color_temperature(e),
        ),
        color: feature_capability(expose, "color_xy"@, |e: Expose| spec_light_color(e)),
        gradient: match spec_first_gradient(dev.exposes@) {
            Some(l) => spec_light_gradient(l),
            None => None,
        },
        effects: has_effects(dev),
        effects_v2: has_effects(dev),
    }
}

/// The entertainment segments of a light: seven single-pixel segments for a
/// gradient light (of at most ten), else one segment.
pub open spec fn segments_view(gradient: bool) -> EntertainmentSegmentsView {
    if gradient {
        EntertainmentSegmentsView {
            configurable: false,
            max_segments: 10,
            segments: Seq::new(7, |i: int| EntertainmentSegment { start: i as u32, length: 1 }),
        }
    } else {
        EntertainmentSegmentsView {
            configurable: false,
            max_segments: 1,
            segments: seq![EntertainmentSegment { start: 0, length: 1 }],
        }
    }
}

/// The store after importing the light `dev` with features `expose`.
pub open spec fn store_with_light(
    m: Map<ResourceLink, ResourceView>,
    dev: &z2m_api::Device,
    expose: ExposeLight,
) -> Map<ResourceLink, ResourceView> {
    let a = dev.ieee_address@;
    let link_device = text_link(RType::Device, a);
    let link_light = text_link(RType::Light, a);
    let link_enttm = text_link(RType::Entertainment, a);
    let link_taurus = text_link(RType::Taurus, a);
    let link_zigcon = text_link(RType::ZigbeeConnectivity, a);
    let device = DeviceView {
        product_data: spec_guess_product_data(dev),
        metadata: light_metadata_view(dev),
        services: set![link_zigcon, link_light, link_enttm, link_taurus],
        identify: true,
    };
    let enttm = EntertainmentView {
        equalizer: true,
        owner: link_device,
        proxy: true,
        renderer: true,
        max_streams: None,
        renderer_reference: Some(link_light),
        segments: Some(segments_view(spec_first_gradient(dev.exposes@) is Some)),
    };
    let taurus = TaurusView {
        capabilities: seq!["sensor"@, "collector"@, "sync"@],
        owner: link_device,
    };
    let m1 = spec_add(m, link_device, ResourceView::Device(device));
    let m2 = spec_add(m1, link_light, ResourceView::Light(light_view(dev, expose)));
    let m3 = spec_add(m2, link_enttm, ResourceView::Entertainment(enttm));
    let m4 = spec_add(m3, link_taurus, ResourceView::Taurus(taurus));
    spec_add(
        m4,
        link_zigcon,
        ResourceView::ZigbeeConnectivity(light_connectivity_view(link_device, a)),
    )
}

/// The light imported from `apidev` with features `expose`, owned by `link_device`.
fn build_light(
    apidev: &z2m_api::Device,
    expose: &ExposeLight,
    link_device: ResourceLink,
    archetype: DeviceArchetype,
    gradient: Option<&z2m_api::ExposeList>,
) -> (r: Light)
    requires
        link_device == text_link(RType::Device, apidev.ieee_address@),
        archetype == spec_guess_product_data(apidev).product_archetype,
        match gradient {
            Some(l) => spec_first_gradient(apidev.exposes@) == Some(*l),
            None => spec_first_gradient(apidev.exposes@) is None,
        },
    ensures
        r@ == light_view(apidev, *expose),
{
    let effects = match &apidev.manufacturer {
        Some(m) => str_eq(m.as_str(), signify_manufacturer_name()),
        None => false,
    };
    let mut light = Light::new(
        link_device,
        LightMetadata { archetype, name: apidev.friendly_name.clone() },
    );
    light.dimming = match expose.feature("brightness") {
        Some(e) => <Dimming as ExtractDimming>::extract_from_expose(e),
        None => None,
    };
    light.color_temperature = match expose.feature("color_temp") {
        Some(e) => <ColorTemperature as ExtractColorTemperature>::extract_from_expose(e),
        None => None,
    };
    light.color = match expose.feature("color_xy") {
        Some(e) => <LightColor as ExtractLightColor>::extract_from_expose(e),
        None => None,
    };
    light.gradient = match gradient {
        Some(l) => <LightGradient as ExtractLightGradient>::extract_from_expose(l),
        None => None,
    };
    if effects {
        light.effects = true;
        light.effects_v2 = true;
    }
    light
}

/// The entertainment segments of a light with or without a gradient.
fn light_segments(gradient: bool) -> (r: EntertainmentSegments)
    ensures
        r@ == segments_view(gradient),
{
    if gradient {
        let mut segs: Vec<EntertainmentSegment> = Vec::new();
        let mut x: u32 = 0;
        while x < 7
            invariant
                x <= 7,
                segs@ =~= Seq::new(x as nat, |i: int| EntertainmentSegment { start: i as u32, length: 1 }),
            decreases 7 - x,
        {
            segs.push(EntertainmentSegment { start: x, length: 1 });
            x = x + 1;
        }
        EntertainmentSegments { configurable: false, max_segments: 10, segments: segs }
    } else {
        let mut segs: Vec<EntertainmentSegment> = Vec::new();
        segs.push(EntertainmentSegment { start: 0, length: 1 });
        assert(segs@ =~= seq![EntertainmentSegment { start: 0, length: 1 }]);
        EntertainmentSegments { configurable: false, max_segments: 1, segments: segs }
    }
}

/// The Taurus service of a light of `owner`.
fn build_taurus(owner: ResourceLink) -> (r: Taurus)
    ensures
        r@ == (TaurusView { capabilities: seq!["sensor"@, "collector"@, "sync"@], owner }),
{
    let mut capabilities = Vec::new();
    capabilities.push("sensor".to_string());
    capabilities.push("collector".to_string());
    capabilities.push("sync".to_string());
    assert(strings_view(capabilities@) =~= seq!["sensor"@, "collector"@, "sync"@]);
    Taurus { capabilities, owner }
}

impl Z2mBackend {
    /// Records that the light `link_light` of device `link_device` is addressed
    /// by the device's name and address.
    fn map_light(&mut self, apidev: &z2m_api::Device, link_device: ResourceLink, link_light: ResourceLink)
        ensures
            final(self).map.view() == old(self).map.view().insert(apidev.friendly_name@, link_light).insert(
                apidev.ieee_address@,
                link_light,
            ),
            final(self).rmap_view() == old(self).rmap_view().insert(
                link_device,
                apidev.friendly_name@,
            ).insert(link_light, apidev.friendly_name@),
            final(self).name == old(self).name,
            final(self).server == old(self).server,
            final(self).config == old(self).config,
    {
        self.map.insert(apidev.friendly_name.clone(), link_light);
        self.map.insert(apidev.ieee_address.clone(), link_light);
        self.rmap_insert(link_device, apidev.friendly_name.clone());
        self.rmap_insert(link_light, apidev.friendly_name.clone());
    }

    /// Imports a light: a device with a light (with the capabilities its
    /// features describe), an entertainment service, a Taurus service and a
    /// Zigbee connectivity service. The light is addressed by the device's
    /// name and address.
    pub fn add_light(
        &mut self,
        res: &mut Resources,
        apidev: &z2m_api::Device,
        expose: &ExposeLight,
    ) -> (r: Result<(), ResourceError>)
        ensures
            r is Ok,
            final(self).map.view() == old(self).map.view().insert(
                apidev.friendly_name@,
                text_link(RType::Light, apidev.ieee_address@),
            ).insert(apidev.ieee_address@, text_link(RType::Light, apidev.ieee_address@)),
            final(self).rmap_view() == old(self).rmap_view().insert(
                text_link(RType::Device, apidev.ieee_address@),
                apidev.friendly_name@,
            ).insert(text_link(RType::Light, apidev.ieee_address@), apidev.friendly_name@),
            final(self).name == old(self).name,
            final(self).server == old(self).server,
            final(self).config == old(self).config,
            final(res).resources() == store_with_light(old(res).resources(), apidev, *expose),
            final(res).aux_data() == old(res).aux_data().insert(
                text_link(RType::Light, apidev.ieee_address@),
                topic_aux(apidev.friendly_name@),
            ),
    {
        let name = &apidev.friendly_name;
        let addr = apidev.ieee_address.as_str();

        let link_device = RType::Device.deterministic(IdSource::Text(addr));
        let link_light = RType::Light.deterministic(IdSource::Text(addr));
        let link_enttm = RType::Entertainment.deterministic(IdSource::Text(addr));
        let link_taurus = RType::Taurus.deterministic(IdSource::Text(addr));
        let link_zigcon = RType::ZigbeeConnectivity.deterministic(IdSource::Text(addr));

        let product_data = DeviceProductData::guess_from_device(apidev);
        let archetype = product_data.product_archetype;

        let gradient = apidev.expose_gradient();

        let mut services = Vec::new();
        insert_link(&mut services, link_zigcon);
        insert_link(&mut services, link_light);
        insert_link(&mut services, link_enttm);
        insert_link(&mut services, link_taurus);
        assert(services@.to_set() =~= set![link_zigcon, link_light, link_enttm, link_taurus]);
        let dev = Device {
            product_data,
            metadata: Metadata { archetype, name: name.clone() },
            services,
            identify: true,
        };

        self.map_light(apidev, link_device, link_light);

        let light = build_light(apidev, expose, link_device, archetype, gradient);
        let segments = light_segments(gradient.is_some());

        let enttm = Entertainment {
            equalizer: true,
            owner: link_device,
            proxy: true,
            renderer: true,
            max_streams: None,
            renderer_reference: Some(link_light),
            segments: Some(segments),
        };

        let taurus = build_taurus(link_device);

        let zigcon = ZigbeeConnectivity {
            channel: None,
            extended_pan_id: None,
            mac_address: apidev.ieee_address.clone(),
            owner: link_device,
            status: ZigbeeConnectivityStatus::Connected,
        };

        let ghost m0 = res.resources();
        let ghost lv = light@;
        let ghost ev = enttm@;
        let ghost tv = taurus@;
        let ghost zv = zigcon@;
        res.aux_set(&link_light, AuxData::new().with_topic(name.as_str()));
        res.add(&link_device, Resource::Device(dev))?;
        res.add(&link_light, Resource::Light(light))?;
        res.add(&link_enttm, Resource::Entertainment(enttm))?;
        res.add(&link_taurus, Resource::Taurus(taurus))?;
        res.add(&link_zigcon, Resource::ZigbeeConnectivity(zigcon))?;
        assert(lv == light_view(apidev, *expose));
        assert(res.resources() == store_with_light(m0, apidev, *expose));
        Ok(())
    }

    /// Imports a plug as a light with only on/off support, with its device and
    /// Zigbee connectivity service; devices that are not plugs are skipped.
    pub fn add_if_plug(&mut self, res: &mut Resources, apidev: &z2m_api::Device) -> (r: Result<
        (),
        ResourceError,
    >)
        ensures
            r is Ok,
            final(self).name == old(self).name,
            final(self).server == old(self).server,
            final(self).config == old(self).config,
            !is_plug(apidev) ==> {
                &&& final(self).map == old(self).map
                &&& final(self).rmap == old(self).rmap
                &&& final(res).resources() == old(res).resources()
                &&& final(res).aux_data() == old(res).aux_data()
            },
            is_plug(apidev) ==> {
                &&& final(self).map.view() == old(self).map.view().insert(
                    apidev.friendly_name@,
                    text_link(RType::Light, apidev.ieee_address@),
                ).insert(apidev.ieee_address@, text_link(RType::Light, apidev.ieee_address@))
                &&& final(self).rmap_view() == old(self).rmap_view().insert(
                    text_link(RType::Device, apidev.ieee_address@),
                    apidev.friendly_name@,
                ).insert(text_link(RType::Light, apidev.ieee_address@), apidev.friendly_name@)
                &&& final(res).resources() == store_with_plug(old(res).resources(), apidev)
                &&& final(res).aux_data() == old(res).aux_data().insert(
                    text_link(RType::Light, apidev.ieee_address@),
                    topic_aux(apidev.friendly_name@),
                )
            },
    {
        let product_data = DeviceProductData::guess_from_device(apidev);
        if product_data.product_archetype != DeviceArchetype::Plug {
            return Ok(());
        }

        let name = &apidev.friendly_name;
        let addr = apidev.ieee_address.as_str();
        let link_device = RType::Device.deterministic(IdSource::Text(addr));
        let link_light = RType::Light.deterministic(IdSource::Text(addr));
        let link_zigcon = RType::ZigbeeConnectivity.deterministic(IdSource::Text(addr));
        let archetype = product_data.product_archetype;

        let mut services = Vec::new();
        insert_link(&mut services, link_zigcon);
        insert_link(&mut services, link_light);
        assert(services@.to_set() =~= set![link_zigcon, link_light]);
        let dev = Device {
            product_data,
            metadata: Metadata { archetype, name: name.clone() },
            services,
            identify: true,
        };

        self.map_light(apidev, link_device, link_light);

        let light = Light::new(link_device, LightMetadata { archetype, name: name.clone() });

        let zigcon = ZigbeeConnectivity {
            channel: None,
            extended_pan_id: None,
            mac_address: apidev.ieee_address.clone(),
            owner: link_device,
            status: ZigbeeConnectivityStatus::Connected,
        };

        let ghost m0 = res.resources();
        res.aux_set(&link_light, AuxData::new().with_topic(name.as_str()));
        res.add(&link_device, Resource::Device(dev))?;
        res.add(&link_light, Resource::Light(light))?;
        res.add(&link_zigcon, Resource::ZigbeeConnectivity(zigcon))?;
        assert(res.resources() == store_with_plug(m0, apidev));
        Ok(())
    }
}

/// Whether `grp` lies outside the configured group prefix (and is not imported).
pub open spec fn group_ignored(server: &Z2mServer, grp: &Group) -> bool {
    server.group_prefix matches Some(p) && !p@.is_prefix_of(grp.friendly_name@)
}

/// Whether `grp` is a group of plugs, and the topic of the group whose room it belongs to.
pub open spec fn group_topic(server: &Z2mServer, grp: &Group) -> (bool, Seq<char>) {
    match server.plug_map {
        Some(m) => if m.view().contains_key(grp.friendly_name@) {
            (true, m.view()[grp.friendly_name@]@)
        } else {
            (false, grp.friendly_name@)
        },
        None => (false, grp.friendly_name@),
    }
}

/// `topic` without the configured group prefix, when it starts with it.
pub open spec fn stripped_topic(server: &Z2mServer, topic: Seq<char>) -> Seq<char> {
    match server.group_prefix {
        Some(p) => if p@.is_prefix_of(topic) {
            topic.skip(p@.len() as int)
        } else {
            topic
        },
        None => topic,
    }
}

/// The room link a group had before plug groups were merged into rooms.
pub open spec fn prev_room_link(grp: &Group) -> ResourceLink {
    text_link(RType::Room, grp.friendly_name@)
}

/// The grouped light link a group had before plug groups were merged into rooms.
pub open spec fn prev_glight_link(grp: &Group) -> ResourceLink {
    spec_deterministic(RType::GroupedLight, IdKey::IdIndex(prev_room_link(grp).rid, grp.id))
}

/// The link of the room for the group topic `topic`.
pub open spec fn room_link(topic: Seq<char>) -> ResourceLink {
    text_link(RType::Room, topic)
}

/// The link of the grouped light of the room for the group topic `topic`.
pub open spec fn glight_link(topic: Seq<char>) -> ResourceLink {
    spec_deterministic(RType::GroupedLight, IdKey::Id(room_link(topic).rid))
}

/// The link of the scene with index `id` in `room`.
pub open spec fn scene_link_for(room: ResourceLink, id: u32) -> ResourceLink {
    spec_deterministic(RType::Scene, IdKey::IdIndex(room.rid, id))
}

/// The device links of the members of `grp`.
pub open spec fn children_links(grp: &Group) -> Set<ResourceLink> {
    grp.members@.map_values(|m: z2m_api::GroupMember| text_link(RType::Device, m.ieee_address@)).to_set()
}

/// The view of the scene created in `room` for the group scene `scn`.
pub open spec fn group_scene_view(room: ResourceLink, scn: GroupScene) -> SceneView {
    SceneView {
        auto_dynamic: false,
        group: room,
        appdata: None,
        image: spec_scene_icon(scn.name@),
        name: scn.name@,
        speed: 50,
        active: SceneActive::Inactive,
    }
}

/// `m` after adding a scene to `room` for each of `scenes`, in order.
pub open spec fn scenes_added(
    m: Map<ResourceLink, ResourceView>,
    scenes: Seq<GroupScene>,
    room: ResourceLink,
) -> Map<ResourceLink, ResourceView>
    decreases scenes.len(),
{
    if scenes.len() == 0 {
        m
    } else {
        let scn = scenes.last();
        spec_add(
            scenes_added(m, scenes.drop_last(), room),
            scene_link_for(room, scn.id),
            ResourceView::Scene(group_scene_view(room, scn)),
        )
    }
}

/// `a` after addressing the scene of `room` for each of `scenes` by `topic` and the scene's index.
pub open spec fn scenes_aux(
    a: Map<ResourceLink, AuxDataView>,
    scenes: Seq<GroupScene>,
    room: ResourceLink,
    topic: Seq<char>,
) -> Map<ResourceLink, AuxDataView>
    decreases scenes.len(),
{
    if scenes.len() == 0 {
        a
    } else {
        let scn = scenes.last();
        scenes_aux(a, scenes.drop_last(), room, topic).insert(
            scene_link_for(room, scn.id),
            AuxDataView { topic: Some(topic), index: Some(scn.id) },
        )
    }
}

/// The identifiers of the scenes of `room` for `scenes`.
pub open spec fn new_scene_rids(scenes: Seq<GroupScene>, room: ResourceLink) -> Set<u128> {
    scenes.map_values(|s: GroupScene| scene_link_for(room, s.id).rid).to_set()
}

/// The scene links whose identifier is in `old` but not in `new`.
pub open spec fn orphan_links(old: Set<u128>, new: Set<u128>) -> Set<ResourceLink> {
    Set::new(|l: ResourceLink| l == scene_link(l.rid) && old.contains(l.rid) && !new.contains(l.rid))
}

/// Whether `m` holds a room under `link`.
pub open spec fn has_room(m: Map<ResourceLink, ResourceView>, link: ResourceLink) -> bool {
    m.contains_key(link) && m[link] is Room
}

/// `m` with `room` added to the rooms of every bridge home among `homes`.
pub open spec fn homes_with(
    m: Map<ResourceLink, ResourceView>,
    homes: Set<ResourceLink>,
    room: ResourceLink,
) -> Map<ResourceLink, ResourceView> {
    Map::new(
        |l: ResourceLink| m.contains_key(l),
        |l: ResourceLink|
            if homes.contains(l) && m[l] is BridgeHome {
                ResourceView::BridgeHome(m[l]->BridgeHome_0.insert(room))
            } else {
                m[l]
            },
    )
}

/// The store after the stale room and grouped light of `grp` are removed.
pub open spec fn group_stage_cleaned(
    m: Map<ResourceLink, ResourceView>,
    server: &Z2mServer,
    grp: &Group,
) -> Map<ResourceLink, ResourceView> {
    let topic = group_topic(server, grp).1;
    let m1 = if room_link(topic) != prev_room_link(grp) {
        m.remove(prev_room_link(grp))
    } else {
        m
    };
    if glight_link(topic) != prev_glight_link(grp) {
        m1.remove(prev_glight_link(grp))
    } else {
        m1
    }
}

/// The store after the scenes of `grp` are brought up to date (for a group of lights).
pub open spec fn group_stage_scenes(
    m: Map<ResourceLink, ResourceView>,
    server: &Z2mServer,
    grp: &Group,
) -> Map<ResourceLink, ResourceView> {
    let (plug, topic) = group_topic(server, grp);
    let m1 = group_stage_cleaned(m, server, grp);
    if plug {
        m1
    } else {
        let room = room_link(topic);
        let m2 = scenes_added(m1, grp.scenes@, room);
        if has_room(m2, room) {
            m2.remove_keys(orphan_links(scene_rids(m2, room.rid), new_scene_rids(grp.scenes@, room)))
        } else {
            m2
        }
    }
}

/// Whether the room of `grp` is already known once its scenes are up to date.
pub open spec fn group_room_known(
    m: Map<ResourceLink, ResourceView>,
    server: &Z2mServer,
    grp: &Group,
) -> bool {
    has_room(group_stage_scenes(m, server, grp), room_link(group_topic(server, grp).1))
}

/// Name and archetype of a new room: from the room configuration of its topic
/// where it gives them, else the topic without prefix and the home archetype.
pub open spec fn room_metadata_view(config: &BridgeConfig, server: &Z2mServer, grp: &Group) -> RoomMetadataView {
    let topic = group_topic(server, grp).1;
    let default_name = stripped_topic(server, topic);
    if config.rooms.view().contains_key(topic) {
        let c = config.rooms.view()[topic];
        RoomMetadataView {
            archetype: match c.icon {
                Some(i) => i,
                None => RoomArchetype::Home,
            },
            name: match c.name {
                Some(n) => n@,
                None => default_name,
            },
        }
    } else {
        RoomMetadataView { archetype: RoomArchetype::Home, name: default_name }
    }
}

/// The store after importing `grp`.
pub open spec fn store_with_group(
    m: Map<ResourceLink, ResourceView>,
    config: &BridgeConfig,
    server: &Z2mServer,
    grp: &Group,
) -> Map<ResourceLink, ResourceView> {
    let topic = group_topic(server, grp).1;
    let room = room_link(topic);
    let glight = glight_link(topic);
    let m1 = group_stage_scenes(m, server, grp);
    if has_room(m1, room) {
        let known = m1[room]->Room_0;
        m1.insert(
            room,
            ResourceView::Room(
                RoomView { children: known.children.union(children_links(grp)), ..known },
            ),
        )
    } else {
        let m2 = homes_with(m1, links_of_type(m1, RType::BridgeHome), room);
        let m3 = spec_add(
            m2,
            room,
            ResourceView::Room(
                RoomView {
                    children: children_links(grp),
                    metadata: room_metadata_view(config, server, grp),
                    services: set![glight],
                },
            ),
        );
        spec_add(m3, glight, ResourceView::GroupedLight(room))
    }
}

/// The aux data after importing `grp`.
pub open spec fn aux_with_group(
    a: Map<ResourceLink, AuxDataView>,
    server: &Z2mServer,
    grp: &Group,
) -> Map<ResourceLink, AuxDataView> {
    let (plug, topic) = group_topic(server, grp);
    if plug {
        a.insert(glight_link(topic), topic_aux(grp.friendly_name@))
    } else {
        scenes_aux(a, grp.scenes@, room_link(topic), topic)
    }
}

/// The device links of the members of `grp`, each once.
fn member_links(grp: &Group) -> (r: Vec<ResourceLink>)
    ensures
        r@.no_duplicates(),
        r@.to_set() == children_links(grp),
{
    let ghost f = |m: z2m_api::GroupMember| text_link(RType::Device, m.ieee_address@);
    let mut out: Vec<ResourceLink> = Vec::new();
    let mut i: usize = 0;
    while i < grp.members.len()
        invariant
            i <= grp.members@.len(),
            f == (|m: z2m_api::GroupMember| text_link(RType::Device, m.ieee_address@)),
            out@.no_duplicates(),
            out@.to_set() == grp.members@.take(i as int).map_values(f).to_set(),
        decreases grp.members@.len() - i,
    {
        let link = RType::Device.deterministic(IdSource::Text(grp.members[i].ieee_address.as_str()));
        insert_link(&mut out, link);
        proof {
            assert(grp.members@.take(i + 1).map_values(f) =~= grp.members@.take(i as int).map_values(
                f,
            ).push(link));
            grp.members@.take(i as int).map_values(f).lemma_push_to_set_commute(link);
        }
        i = i + 1;
    }
    assert(grp.members@.take(grp.members@.len() as int) =~= grp.members@);
    out
}

/// Adds a scene to `room` for each scene of `grp`, addressed by `topic` and the
/// scene's index; gives back the identifiers of those scenes.
fn add_group_scenes(res: &mut Resources, grp: &Group, room: ResourceLink, topic: &str) -> (r: Vec<u128>)
    ensures
        final(res).resources() == scenes_added(old(res).resources(), grp.scenes@, room),
        final(res).aux_data() == scenes_aux(old(res).aux_data(), grp.scenes@, room, topic@),
        r@.to_set() == new_scene_rids(grp.scenes@, room),
{
    let ghost m0 = res.resources();
    let ghost a0 = res.aux_data();
    let ghost f = |s: GroupScene| scene_link_for(room, s.id).rid;
    let mut rids: Vec<u128> = Vec::new();
    let mut i: usize = 0;
    while i < grp.scenes.len()
        invariant
            i <= grp.scenes@.len(),
            f == (|s: GroupScene| scene_link_for(room, s.id).rid),
            res.resources() == scenes_added(m0, grp.scenes@.take(i as int), room),
            res.aux_data() == scenes_aux(a0, grp.scenes@.take(i as int), room, topic@),
            rids@.to_set() == grp.scenes@.take(i as int).map_values(f).to_set(),
        decreases grp.scenes@.len() - i,
    {
        let scn = &grp.scenes[i];
        let scene = Scene {
            auto_dynamic: false,
            group: room,
            metadata: SceneMetadata {
                appdata: None,
                image: guess_scene_icon(scn.name.as_str()),
                name: scn.name.clone(),
            },
            speed: 50,
            active: SceneActive::Inactive,
        };
        let link_scene = RType::Scene.deterministic(IdSource::IdIndex(room.rid, scn.id));
        res.aux_set(&link_scene, AuxData::new().with_topic(topic).with_index(scn.id));
        let ghost rids_before = rids@;
        rids.push(link_scene.rid);
        let added = res.add(&link_scene, Resource::Scene(scene));
        proof {
            let t = grp.scenes@.take(i + 1);
            assert(t.drop_last() =~= grp.scenes@.take(i as int));
            assert(t.last() == *scn);
            assert(grp.scenes@.take(i + 1).map_values(f) =~= grp.scenes@.take(i as int).map_values(
                f,
            ).push(link_scene.rid));
            grp.scenes@.take(i as int).map_values(f).lemma_push_to_set_commute(link_scene.rid);
            rids_before.lemma_push_to_set_commute(link_scene.rid);
        }
        i = i + 1;
    }
    assert(grp.scenes@.take(grp.scenes@.len() as int) =~= grp.scenes@);
    rids
}

/// Removes the scenes whose identifier is in `known` but not in `current`.
fn delete_orphan_scenes(res: &mut Resources, known: &Vec<u128>, current: &Vec<u128>)
    ensures
        final(res).resources() == old(res).resources().remove_keys(
            orphan_links(known@.to_set(), current@.to_set()),
        ),
        final(res).aux_data() == old(res).aux_data(),
{
    let ghost m0 = res.resources();
    let mut i: usize = 0;
    while i < known.len()
        invariant
            i <= known@.len(),
            res.resources() == m0.remove_keys(orphan_links(known@.take(i as int).to_set(), current@.to_set())),
            res.aux_data() == old(res).aux_data(),
        decreases known@.len() - i,
    {
        let rid = known[i];
        let mut found = false;
        let mut j: usize = 0;
        while j < current.len()
            invariant
                j <= current@.len(),
                found == current@.take(j as int).contains(rid),
            decreases current@.len() - j,
        {
            if current[j] == rid {
                found = true;
            }
            proof {
                let t = current@.take(j as int);
                let t1 = current@.take(j + 1);
                assert(t1 =~= t.push(current@[j as int]));
                if t1.contains(rid) {
                    let k = choose|k: int| 0 <= k < t1.len() && t1[k] == rid;
                    if k < j {
                        assert(t[k] == rid);
                    }
                }
                if t.contains(rid) {
                    let k = choose|k: int| 0 <= k < t.len() && t[k] == rid;
                    assert(t1[k] == rid);
                }
                if current@[j as int] == rid {
                    assert(t1[j as int] == rid);
                }
            }
            j = j + 1;
        }
        assert(current@.take(current@.len() as int) =~= current@);
        if !found {
            let _ = res.delete(&RType::Scene.link_to(rid));
        }
        proof {
            assert(known@.take(i + 1) =~= known@.take(i as int).push(rid));
            known@.take(i as int).lemma_push_to_set_commute(rid);
            let before = orphan_links(known@.take(i as int).to_set(), current@.to_set());
            let after = orphan_links(known@.take(i + 1).to_set(), current@.to_set());
            if found {
                assert(after =~= before);
            } else {
                assert(after =~= before.insert(scene_link(rid)));
                assert(m0.remove_keys(after) =~= m0.remove_keys(before).remove(scene_link(rid)));
            }
        }
        i = i + 1;
    }
    assert(known@.take(known@.len() as int) =~= known@);
}

/// Adds `room` to the rooms of every bridge home.
fn add_room_to_homes(res: &mut Resources, room: ResourceLink) -> (r: Result<(), ResourceError>)
    ensures
        r is Ok,
        final(res).resources() == homes_with(
            old(res).resources(),
            links_of_type(old(res).resources(), RType::BridgeHome),
            room,
        ),
        final(res).aux_data() == old(res).aux_data(),
{
    let ghost m0 = res.resources();
    let homes = res.get_resource_ids_by_type(RType::BridgeHome);
    let mut i: usize = 0;
    assert(homes_with(m0, homes@.take(0).to_set(), room) =~= m0);
    while i < homes.len()
        invariant
            i <= homes@.len(),
            homes@.no_duplicates(),
            homes@.to_set() == links_of_type(m0, RType::BridgeHome),
            forall|l: ResourceLink| #[trigger] m0.contains_key(l) ==> m0[l].rtype() == l.rtype,
            res.resources() == homes_with(m0, homes@.take(i as int).to_set(), room),
            res.aux_data() == old(res).aux_data(),
        decreases homes@.len() - i,
    {
        let id = homes[i];
        proof {
            assert(homes@.to_set().contains(id));
            assert(m0.contains_key(id));
            assert(!homes@.take(i as int).contains(id)) by {
                if homes@.take(i as int).contains(id) {
                    let k = choose|k: int| 0 <= k < i && homes@.take(i as int)[k] == id;
                    assert(homes@[k] == homes@[i as int]);
                }
            }
        }
        let updated = res.add_home_child(&id, room);
        if updated.is_err() {
            return updated;
        }
        proof {
            assert(homes@.take(i + 1) =~= homes@.take(i as int).push(id));
            homes@.take(i as int).lemma_push_to_set_commute(id);
            assert(res.resources() =~= homes_with(m0, homes@.take(i + 1).to_set(), room));
        }
        i = i + 1;
    }
    assert(homes@.take(homes@.len() as int) =~= homes@);
    Ok(())
}

impl Z2mBackend {
    /// Imports a group as a room with a grouped light, and its scenes.
    ///
    /// A group outside the configured prefix is skipped. A group of plugs is
    /// merged into the room of the group it is mapped to, and only addressed
    /// by its own name. A room seen before gets the group's members added to it.
    pub fn add_group(&mut self, res: &mut Resources, grp: &Group) -> (r: Result<(), ResourceError>)
        ensures
            r is Ok,
            final(self).name == old(self).name,
            final(self).server == old(self).server,
            final(self).config == old(self).config,
            group_ignored(&old(self).server, grp) ==> {
                &&& final(self).map == old(self).map
                &&& final(self).rmap == old(self).rmap
                &&& final(res).resources() == old(res).resources()
                &&& final(res).aux_data() == old(res).aux_data()
            },
            !group_ignored(&old(self).server, grp) ==> {
                let topic = group_topic(&old(self).server, grp).1;
                let known = group_room_known(old(res).resources(), &old(self).server, grp);
                &&& final(self).map.view() == old(self).map.view().insert(
                    grp.friendly_name@,
                    glight_link(topic),
                ).insert(decimal(grp.id as nat), glight_link(topic))
                &&& final(self).rmap_view() == if known {
                    old(self).rmap_view()
                } else {
                    old(self).rmap_view().insert(glight_link(topic), topic).insert(
                        room_link(topic),
                        topic,
                    )
                }
                &&& final(res).resources() == store_with_group(
                    old(res).resources(),
                    &old(self).config,
                    &old(self).server,
                    grp,
                )
                &&& final(res).aux_data() == aux_with_group(old(res).aux_data(), &old(self).server, grp)
            },
    {
        if let Some(prefix) = &self.server.group_prefix {
            if strip_prefix(grp.friendly_name.as_str(), prefix.as_str()).is_none() {
                return Ok(());
            }
        }

        let (plug_group, topic) = match &self.server.plug_map {
            Some(plug_map) => match plug_map.get(&grp.friendly_name) {
                Some(t) => (true, t.clone()),
                None => (false, grp.friendly_name.clone()),
            },
            None => (false, grp.friendly_name.clone()),
        };
        assert((plug_group, topic@) == group_topic(&self.server, grp));

        let stripped = match &self.server.group_prefix {
            Some(prefix) => match strip_prefix(topic.as_str(), prefix.as_str()) {
                Some(rest) => rest.to_string(),
                None => topic.clone(),
            },
            None => topic.clone(),
        };

        let prev_link_room = RType::Room.deterministic(IdSource::Text(grp.friendly_name.as_str()));
        let prev_link_glight = RType::GroupedLight.deterministic(
            IdSource::IdIndex(prev_link_room.rid, grp.id),
        );
        let link_room = RType::Room.deterministic(IdSource::Text(topic.as_str()));
        let link_glight = RType::GroupedLight.deterministic(IdSource::Id(link_room.rid));

        let children = member_links(grp);

        let ghost m0 = res.resources();
        if link_room != prev_link_room {
            let _ = res.delete(&prev_link_room);
        }
        if link_glight != prev_link_glight {
            let _ = res.delete(&prev_link_glight);
        }
        assert(res.resources() == group_stage_cleaned(m0, &self.server, grp));

        if plug_group {
            res.aux_set(&link_glight, AuxData::new().with_topic(grp.friendly_name.as_str()));
        } else {
            let scenes_new = add_group_scenes(res, grp, link_room, topic.as_str());
            if res.get_room(&link_room).is_some() {
                let scenes_old = res.get_scenes_for_room(link_room.rid);
                delete_orphan_scenes(res, &scenes_old, &scenes_new);
            }
        }
        assert(res.resources() == group_stage_scenes(m0, &self.server, grp));

        self.map.insert(grp.friendly_name.clone(), link_glight);
        self.map.insert(u32_to_string(grp.id), link_glight);

        let ghost m1 = res.resources();
        if res.update_room_children(&link_room, &children).is_ok() {
            return Ok(());
        }

        let mut metadata = RoomMetadata { archetype: RoomArchetype::Home, name: stripped };
        if let Some(room_conf) = self.config.rooms.get(&topic) {
            if let Some(name) = &room_conf.name {
                metadata.name = name.clone();
            }
            if let Some(icon) = room_conf.icon {
                metadata.archetype = icon;
            }
        }
        assert(metadata@ == room_metadata_view(&self.config, &self.server, grp));

        self.rmap_insert(link_glight, topic.clone());
        self.rmap_insert(link_room, topic.clone());

        add_room_to_homes(res, link_room)?;

        let mut services = Vec::new();
        insert_link(&mut services, link_glight);
        assert(services@.to_set() =~= set![link_glight]);
        let room = Room { children, metadata, services };
        res.add(&link_room, Resource::Room(room))?;
        res.add(&link_glight, Resource::GroupedLight(GroupedLight::new(link_room)))?;
        assert(res.resources() == store_with_group(m0, &self.config, &self.server, grp));
        Ok(())
    }
}

/// The scene image a scene name suggests: the built-in scene names and a few aliases.
pub open spec fn spec_scene_icon(name: Seq<char>) -> Option<SceneIcon> {
    if name == "Bright"@ {
        Some(SceneIcon::Bright)
    } else if name == "Relax"@ {
        Some(SceneIcon::Relax)
    } else if name == "Night Light"@ {
        Some(SceneIcon::NightLight)
    } else if name == "Rest"@ {
        Some(SceneIcon::Rest)
    } else if name == "Concentrate"@ {
        Some(SceneIcon::Concentrate)
    } else if name == "Dimmed"@ {
        Some(SceneIcon::Dimmed)
    } else if name == "Energize"@ {
        Some(SceneIcon::Energize)
    } else if name == "Read"@ {
        Some(SceneIcon::Read)
    } else if name == "Cool Bright"@ {
        Some(SceneIcon::CoolBright)
    } else if name == "Night"@ {
        Some(SceneIcon::NightLight)
    } else if name == "Cool"@ {
        Some(SceneIcon::CoolBright)
    } else if name == "Dim"@ {
        Some(SceneIcon::Dimmed)
    } else {
        None
    }
}

/// The scene image a scene name suggests.
pub fn guess_scene_icon(name: &str) -> (r: Option<SceneIcon>)
    ensures
        r == spec_scene_icon(name@),
{
    if str_eq(name, "Bright") {
        Some(SceneIcon::Bright)
    } else if str_eq(name, "Relax") {
        Some(SceneIcon::Relax)
    } else if str_eq(name, "Night Light") {
        Some(SceneIcon::NightLight)
    } else if str_eq(name, "Rest") {
        Some(SceneIcon::Rest)
    } else if str_eq(name, "Concentrate") {
        Some(SceneIcon::Concentrate)
    } else if str_eq(name, "Dimmed") {
        Some(SceneIcon::Dimmed)
    } else if str_eq(name, "Energize") {
        Some(SceneIcon::Energize)
    } else if str_eq(name, "Read") {
        Some(SceneIcon::Read)
    } else if str_eq(name, "Cool Bright") {
        Some(SceneIcon::CoolBright)
    } else if str_eq(name, "Night") {
        Some(SceneIcon::NightLight)
    } else if str_eq(name, "Cool") {
        Some(SceneIcon::CoolBright)
    } else if str_eq(name, "Dim") {
        Some(SceneIcon::Dimmed)
    } else {
        None
    }
}

} // verus!
