//! Requests to the audio side and what they become: which PipeWire object is changed,
//! and the parameter or metadata property written to it.

use vstd::prelude::*;
use vstd::string::*;
use std::collections::HashMap;
use crate::pw_pod::{PodValue, PodProperty, PodObject, prop_get, get_prop, TYPE_OBJECT_PROPS,
    TYPE_OBJECT_PARAM_PROFILE, TYPE_OBJECT_PARAM_ROUTE, PARAM_PROPS, PARAM_PROFILE, PARAM_ROUTE,
    PARAM_PROFILE_INDEX, PARAM_PROFILE_SAVE, PARAM_ROUTE_INDEX, PARAM_ROUTE_DEVICE, PARAM_ROUTE_PROPS,
    PARAM_ROUTE_SAVE, PROP_CHANNEL_VOLUMES, PROP_MUTE};
use crate::text::str_eq;

verus! {

broadcast use vstd::std_specs::hash::group_hash_axioms;

/// A request to the audio side. Volumes are per channel, as the IEEE-754 bit patterns of
/// the values the user chose.
pub enum PipewireCommand {
    SetDefaultSink(String),
    SetDefaultSource(String),
    SetNodeVolume(u32, Vec<u32>),
    MuteNode(u32, bool),
    /// Device, route index, route device, volumes.
    SetDeviceVolume(u32, u32, u32, Vec<u32>),
    /// Device, route index, route device, mute.
    SetDeviceMute(u32, u32, u32, bool),
    /// Device, route index, route device.
    SetDeviceRoute(u32, u32, u32),
    /// Device, profile index.
    SetDeviceProfile(u32, u32),
}

impl PipewireCommand {
    /// The name of the variant, as written in the source.
    pub open spec fn variant_name_spec(&self) -> Seq<char> {
        match self {
            PipewireCommand::SetDefaultSink(_) => "SetDefaultSink"@,
            PipewireCommand::SetDefaultSource(_) => "SetDefaultSource"@,
            PipewireCommand::SetNodeVolume(..) => "SetNodeVolume"@,
            PipewireCommand::MuteNode(..) => "MuteNode"@,
            PipewireCommand::SetDeviceVolume(..) => "SetDeviceVolume"@,
            PipewireCommand::SetDeviceMute(..) => "SetDeviceMute"@,
            PipewireCommand::SetDeviceRoute(..) => "SetDeviceRoute"@,
            PipewireCommand::SetDeviceProfile(..) => "SetDeviceProfile"@,
        }
    }

    /// The name of the variant, as written in the source.
    pub fn variant_name(&self) -> (r: &'static str)
        ensures
            r@ == self.variant_name_spec(),
    {
        match self {
            PipewireCommand::SetDefaultSink(_) => "SetDefaultSink",
            PipewireCommand::SetDefaultSource(_) => "SetDefaultSource",
            PipewireCommand::SetNodeVolume(..) => "SetNodeVolume",
            PipewireCommand::MuteNode(..) => "MuteNode",
            PipewireCommand::SetDeviceVolume(..) => "SetDeviceVolume",
            PipewireCommand::SetDeviceMute(..) => "SetDeviceMute",
            PipewireCommand::SetDeviceRoute(..) => "SetDeviceRoute",
            PipewireCommand::SetDeviceProfile(..) => "SetDeviceProfile",
        }
    }
}

/// What a command asks of PipeWire. Channel volumes in parameters are still the values
/// the user chose: whoever writes the parameter converts them to PipeWire's scale.
pub enum PipewireRequest {
    /// Set a property of the default metadata object (subject 0).
    SetMetadataProperty { key: &'static str, type_: &'static str, value: String },
    /// Set the `Props` parameter of a node.
    SetNodeParam { node: u32, param: PodObject },
    /// Set the `Route` parameter of a device.
    SetDeviceRoute { device: u32, param: PodObject },
    /// Set the `Profile` parameter of a device.
    SetDeviceProfile { device: u32, param: PodObject },
}

/// The PipeWire objects the bar has bound, with the listeners that must live as long as
/// they do.
pub struct ListenerStorage<N, D, M, L> {
    nodes: HashMap<u32, N>,
    devices: HashMap<u32, D>,
    metadata: Option<M>,
    listeners: Vec<L>,
}

impl<N, D, M, L> ListenerStorage<N, D, M, L> {
    /// The bound nodes, by global id.
    pub closed spec fn nodes_view(&self) -> Map<u32, N> {
        self.nodes@
    }

    /// The bound devices, by global id.
    pub closed spec fn devices_view(&self) -> Map<u32, D> {
        self.devices@
    }

    /// The bound default metadata object, if any.
    pub closed spec fn metadata_view(&self) -> Option<M> {
        self.metadata
    }

    /// The listeners kept alive, in the order they were added.
    pub closed spec fn listeners_view(&self) -> Seq<L> {
        self.listeners@
    }

    /// Nothing bound.
    pub fn new() -> (r: Self)
        ensures
            r.nodes_view() == Map::<u32, N>::empty(),
            r.devices_view() == Map::<u32, D>::empty(),
            r.metadata_view() is None,
            r.listeners_view() == Seq::<L>::empty(),
            bound_of(r) == (Set::<u32>::empty(), Set::<u32>::empty(), false),
    {
        let r = ListenerStorage { nodes: HashMap::new(), devices: HashMap::new(), metadata: None, listeners: Vec::new() };
        assert(r.nodes_view().dom() =~= Set::<u32>::empty());
        assert(r.devices_view().dom() =~= Set::<u32>::empty());
        r
    }

    /// Keeps a bound node, with its node listener and then its proxy listener.
    pub fn add_node(&mut self, id: u32, node: N, node_listener: L, proxy_listener: L)
        ensures
            final(self).nodes_view() == old(self).nodes_view().insert(id, node),
            final(self).devices_view() == old(self).devices_view(),
            final(self).metadata_view() == old(self).metadata_view(),
            final(self).listeners_view() == old(self).listeners_view().push(node_listener).push(proxy_listener),
    {
        self.nodes.insert(id, node);
        self.listeners.push(node_listener);
        self.listeners.push(proxy_listener);
    }

    /// Keeps a bound device with its listener.
    pub fn add_device(&mut self, id: u32, device: D, listener: L)
        ensures
            final(self).devices_view() == old(self).devices_view().insert(id, device),
            final(self).nodes_view() == old(self).nodes_view(),
            final(self).metadata_view() == old(self).metadata_view(),
            final(self).listeners_view() == old(self).listeners_view().push(listener),
    {
        self.devices.insert(id, device);
        self.listeners.push(listener);
    }

    /// Keeps the bound default metadata object with its listener.
    pub fn set_metadata(&mut self, metadata: M, listener: L)
        ensures
            final(self).metadata_view() == Some(metadata),
            final(self).nodes_view() == old(self).nodes_view(),
            final(self).devices_view() == old(self).devices_view(),
            final(self).listeners_view() == old(self).listeners_view().push(listener),
    {
        self.metadata = Some(metadata);
        self.listeners.push(listener);
    }

    /// The bound node with global id `id`.
    pub fn node(&self, id: u32) -> (r: Option<&N>)
        ensures
            match r {
                Some(n) => self.nodes_view().contains_key(id) && self.nodes_view()[id] == *n,
                None => !self.nodes_view().contains_key(id),
            },
    {
        self.nodes.get(&id)
    }

    /// The bound device with global id `id`.
    pub fn device(&self, id: u32) -> (r: Option<&D>)
        ensures
            match r {
                Some(d) => self.devices_view().contains_key(id) && self.devices_view()[id] == *d,
                None => !self.devices_view().contains_key(id),
            },
    {
        self.devices.get(&id)
    }

    /// The bound default metadata object.
    pub fn metadata(&self) -> (r: Option<&M>)
        ensures
            match r {
                Some(m) => self.metadata_view() == Some(*m),
                None => self.metadata_view() is None,
            },
    {
        self.metadata.as_ref()
    }
}

/// What the storage has bound: node ids, device ids, and whether the default metadata
/// is bound.
pub open spec fn bound_of<N, D, M, L>(s: ListenerStorage<N, D, M, L>) -> (Set<u32>, Set<u32>, bool) {
    (s.nodes_view().dom(), s.devices_view().dom(), s.metadata_view() is Some)
}

/// What the PipeWire loop sees, in arrival order: an announced global of some kind, or
/// a command.
pub enum LoopEvent {
    NodeAnnounced(u32),
    DeviceAnnounced(u32),
    /// The metadata object named `default`.
    DefaultMetadataAnnounced,
    OtherGlobalAnnounced,
    CommandArrived,
}

/// What is bound after `e`, given what was bound before it: an announced node, device or
/// default metadata is bound; anything else binds nothing.
pub open spec fn after_event(b: (Set<u32>, Set<u32>, bool), e: LoopEvent) -> (Set<u32>, Set<u32>, bool) {
    match e {
        LoopEvent::NodeAnnounced(id) => (b.0.insert(id), b.1, b.2),
        LoopEvent::DeviceAnnounced(id) => (b.0, b.1.insert(id), b.2),
        LoopEvent::DefaultMetadataAnnounced => (b.0, b.1, true),
        _ => b,
    }
}

/// What is bound after `events`, starting from nothing.
pub open spec fn announced(events: Seq<LoopEvent>) -> (Set<u32>, Set<u32>, bool)
    decreases events.len(),
{
    if events.len() == 0 {
        (Set::empty(), Set::empty(), false)
    } else {
        after_event(announced(events.drop_last()), events.last())
    }
}

/// The metadata object is the default one: its `metadata.name` is `default`.
pub open spec fn is_default_metadata_spec(props: Seq<(String, String)>) -> bool {
    match prop_get(props, "metadata.name"@) {
        Some(v) => v@ == "default"@,
        None => false,
    }
}

/// Whether a metadata object, by its global properties, is the default one.
pub fn is_default_metadata(props: &Vec<(String, String)>) -> (r: bool)
    ensures
        r == is_default_metadata_spec(props@),
{
    match get_prop(props, "metadata.name") {
        Some(v) => str_eq(v.as_str(), "default"),
        None => false,
    }
}

/// Which default a metadata property names.
#[derive(PartialEq, Eq, Structural)]
pub enum DefaultKind {
    Sink,
    Source,
}

/// Which default a change of the metadata property `key` reports, if any.
pub fn default_kind(key: Option<&str>) -> (r: Option<DefaultKind>)
    ensures
        r == (match key {
            Some(k) => if k@ == "default.audio.sink"@ {
                Some(DefaultKind::Sink)
            } else if k@ == "default.audio.source"@ {
                Some(DefaultKind::Source)
            } else {
                None
            },
            None => None,
        }),
{
    match key {
        Some(k) => {
            if str_eq(k, "default.audio.sink") {
                Some(DefaultKind::Sink)
            } else if str_eq(k, "default.audio.source") {
                Some(DefaultKind::Source)
            } else {
                None
            }
        },
        None => None,
    }
}

/// The parameter that selects route `route_index` (on route device `route_device`) of a
/// device and saves it: index, device, then the given properties as a property object
/// (only when there are some), then `save`.
pub open spec fn route_param_spec(o: PodObject, route_index: u32, route_device: u32, properties: Vec<PodProperty>) -> bool {
    let props = o.properties@;
    let has_props = properties@.len() > 0;
    &&& o.type_ == TYPE_OBJECT_PARAM_ROUTE
    &&& o.id == PARAM_ROUTE
    &&& props.len() == if has_props { 4int } else { 3int }
    &&& props[0] == PodProperty { key: PARAM_ROUTE_INDEX, value: PodValue::Int(route_index as i32) }
    &&& props[1] == PodProperty { key: PARAM_ROUTE_DEVICE, value: PodValue::Int(route_device as i32) }
    &&& has_props ==> props[2] == PodProperty {
        key: PARAM_ROUTE_PROPS,
        value: PodValue::Object(PodObject { type_: TYPE_OBJECT_PROPS, id: PARAM_ROUTE, properties }),
    }
    &&& props.last() == PodProperty { key: PARAM_ROUTE_SAVE, value: PodValue::Bool(true) }
}

/// Builds the route parameter that selects route `route_index` on `route_device`, sets
/// `properties` on it and saves it.
pub fn device_set_route_properties(route_index: u32, route_device: u32, properties: Vec<PodProperty>) -> (r: PodObject)
    requires
        route_index <= i32::MAX,
        route_device <= i32::MAX,
    ensures
        route_param_spec(r, route_index, route_device, properties),
{
    let mut route_properties: Vec<PodProperty> = Vec::new();
    route_properties.push(PodProperty { key: PARAM_ROUTE_INDEX, value: PodValue::Int(route_index as i32) });
    route_properties.push(PodProperty { key: PARAM_ROUTE_DEVICE, value: PodValue::Int(route_device as i32) });
    if properties.len() > 0 {
        route_properties.push(
            PodProperty {
                key: PARAM_ROUTE_PROPS,
                value: PodValue::Object(PodObject { type_: TYPE_OBJECT_PROPS, id: PARAM_ROUTE, properties }),
            },
        );
    }
    route_properties.push(PodProperty { key: PARAM_ROUTE_SAVE, value: PodValue::Bool(true) });
    PodObject { type_: TYPE_OBJECT_PARAM_ROUTE, id: PARAM_ROUTE, properties: route_properties }
}

/// The parameter that selects profile `profile_index` of a device and saves it.
pub open spec fn profile_param_spec(o: PodObject, profile_index: u32) -> bool {
    &&& o.type_ == TYPE_OBJECT_PARAM_PROFILE
    &&& o.id == PARAM_PROFILE
    &&& o.properties@ == seq![
        PodProperty { key: PARAM_PROFILE_INDEX, value: PodValue::Int(profile_index as i32) },
        PodProperty { key: PARAM_PROFILE_SAVE, value: PodValue::Bool(true) },
    ]
}

/// Builds the profile parameter that selects profile `profile_index` and saves it.
pub fn device_set_profile(profile_index: u32) -> (r: PodObject)
    requires
        profile_index <= i32::MAX,
    ensures
        profile_param_spec(r, profile_index),
{
    let mut properties: Vec<PodProperty> = Vec::new();
    properties.push(PodProperty { key: PARAM_PROFILE_INDEX, value: PodValue::Int(profile_index as i32) });
    properties.push(PodProperty { key: PARAM_PROFILE_SAVE, value: PodValue::Bool(true) });
    assert(properties@ =~= seq![
        PodProperty { key: PARAM_PROFILE_INDEX, value: PodValue::Int(profile_index as i32) },
        PodProperty { key: PARAM_PROFILE_SAVE, value: PodValue::Bool(true) },
    ]);
    PodObject { type_: TYPE_OBJECT_PARAM_PROFILE, id: PARAM_PROFILE, properties }
}

/// A channel-volume property holding the first two of `volume`.
pub open spec fn is_two_channel_volumes(p: PodProperty, volume: Seq<u32>) -> bool {
    &&& p.key == PROP_CHANNEL_VOLUMES
    &&& p.value matches PodValue::FloatArray(b) && b@ == seq![volume[0], volume[1]]
}

fn two_channel_volumes(volume: &Vec<u32>) -> (r: PodProperty)
    requires
        volume@.len() >= 2,
    ensures
        is_two_channel_volumes(r, volume@),
{
    let mut b: Vec<u32> = Vec::new();
    b.push(volume[0]);
    b.push(volume[1]);
    assert(b@ =~= seq![volume@[0], volume@[1]]);
    PodProperty { key: PROP_CHANNEL_VOLUMES, value: PodValue::FloatArray(b) }
}

/// A node `Props` parameter holding exactly one property, `p`.
pub open spec fn is_node_props(o: PodObject, p: spec_fn(PodProperty) -> bool) -> bool {
    &&& o.type_ == TYPE_OBJECT_PROPS
    &&& o.id == PARAM_PROPS
    &&& o.properties@.len() == 1
    &&& p(o.properties@[0])
}

/// The command can be carried out without a failed index or conversion: node volumes
/// have two channels; for a bound device, device volumes have two channels and route
/// and profile indices fit in `i32`.
pub open spec fn command_ok<N, D, M, L>(command: PipewireCommand, storage: ListenerStorage<N, D, M, L>) -> bool {
    let has_device = |id: u32| storage.devices_view().contains_key(id);
    match command {
        PipewireCommand::SetNodeVolume(_, v) => v@.len() >= 2,
        PipewireCommand::SetDeviceVolume(id, ri, rd, v) => has_device(id) ==> v@.len() >= 2 && ri <= i32::MAX && rd
            <= i32::MAX,
        PipewireCommand::SetDeviceMute(id, ri, rd, _) => has_device(id) ==> ri <= i32::MAX && rd <= i32::MAX,
        PipewireCommand::SetDeviceRoute(id, ri, rd) => has_device(id) ==> ri <= i32::MAX && rd <= i32::MAX,
        PipewireCommand::SetDeviceProfile(id, pi) => has_device(id) ==> pi <= i32::MAX,
        _ => true,
    }
}

/// The object that `command` addresses is bound: the default metadata for a default
/// change, the node for a node change, the device for a device change.
pub open spec fn addresses_bound(command: PipewireCommand, nodes: Set<u32>, devices: Set<u32>, has_metadata: bool) -> bool {
    match command {
        PipewireCommand::SetDefaultSink(_) => has_metadata,
        PipewireCommand::SetDefaultSource(_) => has_metadata,
        PipewireCommand::SetNodeVolume(id, _) => nodes.contains(id),
        PipewireCommand::MuteNode(id, _) => nodes.contains(id),
        PipewireCommand::SetDeviceVolume(id, ..) => devices.contains(id),
        PipewireCommand::SetDeviceMute(id, ..) => devices.contains(id),
        PipewireCommand::SetDeviceRoute(id, ..) => devices.contains(id),
        PipewireCommand::SetDeviceProfile(id, _) => devices.contains(id),
    }
}

/// `addresses_bound` over what `storage` has bound.
pub open spec fn addresses_stored<N, D, M, L>(command: PipewireCommand, storage: ListenerStorage<N, D, M, L>) -> bool {
    addresses_bound(
        command,
        storage.nodes_view().dom(),
        storage.devices_view().dom(),
        storage.metadata_view() is Some,
    )
}

/// Turns a command into the request it makes of PipeWire; `None` when the object it
/// addresses (the default metadata, the node, the device) is not bound.
pub fn handle_command<N, D, M, L>(command: PipewireCommand, storage: &ListenerStorage<N, D, M, L>) -> (r: Option<PipewireRequest>)
    requires
        command_ok(command, *storage),
    ensures
        r is Some <==> addresses_stored(command, *storage),
        match command {
            PipewireCommand::SetDefaultSink(sink) => if storage.metadata_view() is Some {
                r matches Some(PipewireRequest::SetMetadataProperty { key, type_, value })
                    && key@ == "default.audio.sink"@ && type_@ == "Spa:String:JSON"@ && value == sink
            } else {
                r is None
            },
            PipewireCommand::SetDefaultSource(source) => if storage.metadata_view() is Some {
                r matches Some(PipewireRequest::SetMetadataProperty { key, type_, value })
                    && key@ == "default.audio.source"@ && type_@ == "Spa:String:JSON"@ && value == source
            } else {
                r is None
            },
            PipewireCommand::SetNodeVolume(id, volume) => if storage.nodes_view().contains_key(id) {
                r matches Some(PipewireRequest::SetNodeParam { node, param }) && node == id
                    && is_node_props(param, |p: PodProperty| is_two_channel_volumes(p, volume@))
            } else {
                r is None
            },
            PipewireCommand::MuteNode(id, mute) => if storage.nodes_view().contains_key(id) {
                r matches Some(PipewireRequest::SetNodeParam { node, param }) && node == id
                    && is_node_props(param, |p: PodProperty| p == PodProperty { key: PROP_MUTE, value: PodValue::Bool(mute) })
            } else {
                r is None
            },
            PipewireCommand::SetDeviceVolume(id, ri, rd, volume) => if storage.devices_view().contains_key(id) {
                r matches Some(PipewireRequest::SetDeviceRoute { device, param }) && device == id && {
                    &&& param.properties@[2].value matches PodValue::Object(inner)
                        && inner.properties@.len() == 1 && is_two_channel_volumes(inner.properties@[0], volume@)
                    &&& route_param_spec(param, ri, rd, param.properties@[2].value->Object_0.properties)
                }
            } else {
                r is None
            },
            PipewireCommand::SetDeviceMute(id, ri, rd, mute) => if storage.devices_view().contains_key(id) {
                r matches Some(PipewireRequest::SetDeviceRoute { device, param }) && device == id && {
                    &&& param.properties@[2].value matches PodValue::Object(inner)
                        && inner.properties@ == seq![PodProperty { key: PROP_MUTE, value: PodValue::Bool(mute) }]
                    &&& route_param_spec(param, ri, rd, param.properties@[2].value->Object_0.properties)
                }
            } else {
                r is None
            },
            PipewireCommand::SetDeviceRoute(id, ri, rd) => if storage.devices_view().contains_key(id) {
                r matches Some(PipewireRequest::SetDeviceRoute { device, param }) && device == id
                    && param.properties@.len() == 3
                    && exists|empty: Vec<PodProperty>| empty@.len() == 0 && route_param_spec(param, ri, rd, empty)
            } else {
                r is None
            },
            PipewireCommand::SetDeviceProfile(id, pi) => if storage.devices_view().contains_key(id) {
                r matches Some(PipewireRequest::SetDeviceProfile { device, param }) && device == id
                    && profile_param_spec(param, pi)
            } else {
                r is None
            },
        },
{
    match command {
        PipewireCommand::SetDefaultSink(sink) => {
            if storage.metadata().is_some() {
                Some(PipewireRequest::SetMetadataProperty {
                    key: "default.audio.sink",
                    type_: "Spa:String:JSON",
                    value: sink,
                })
            } else {
                None
            }
        },
        PipewireCommand::SetDefaultSource(source) => {
            if storage.metadata().is_some() {
                Some(PipewireRequest::SetMetadataProperty {
                    key: "default.audio.source",
                    type_: "Spa:String:JSON",
                    value: source,
                })
            } else {
                None
            }
        },
        PipewireCommand::SetNodeVolume(id, volume) => {
            let prop = two_channel_volumes(&volume);
            if storage.node(id).is_some() {
                let mut properties: Vec<PodProperty> = Vec::new();
                properties.push(prop);
                Some(PipewireRequest::SetNodeParam {
                    node: id,
                    param: PodObject { type_: TYPE_OBJECT_PROPS, id: PARAM_PROPS, properties },
                })
            } else {
                None
            }
        },
        PipewireCommand::MuteNode(id, mute) => {
            if storage.node(id).is_some() {
                let mut properties: Vec<PodProperty> = Vec::new();
                properties.push(PodProperty { key: PROP_MUTE, value: PodValue::Bool(mute) });
                Some(PipewireRequest::SetNodeParam {
                    node: id,
                    param: PodObject { type_: TYPE_OBJECT_PROPS, id: PARAM_PROPS, properties },
                })
            } else {
                None
            }
        },
        PipewireCommand::SetDeviceVolume(id, route_index, route_device, volume) => {
            if storage.device(id).is_some() {
                let mut properties: Vec<PodProperty> = Vec::new();
                properties.push(two_channel_volumes(&volume));
                let param = device_set_route_properties(route_index, route_device, properties);
                Some(PipewireRequest::SetDeviceRoute { device: id, param })
            } else {
                None
            }
        },
        PipewireCommand::SetDeviceMute(id, route_index, route_device, mute) => {
            if storage.device(id).is_some() {
                let mut properties: Vec<PodProperty> = Vec::new();
                properties.push(PodProperty { key: PROP_MUTE, value: PodValue::Bool(mute) });
                let ghost given = properties;
                let param = device_set_route_properties(route_index, route_device, properties);
                assert(given@ =~= seq![PodProperty { key: PROP_MUTE, value: PodValue::Bool(mute) }]);
                Some(PipewireRequest::SetDeviceRoute { device: id, param })
            } else {
                None
            }
        },
        PipewireCommand::SetDeviceRoute(id, route_index, route_device) => {
            if storage.device(id).is_some() {
                let properties: Vec<PodProperty> = Vec::new();
                let ghost given = properties;
                let param = device_set_route_properties(route_index, route_device, properties);
                assert(route_param_spec(param, route_index, route_device, given));
                Some(PipewireRequest::SetDeviceRoute { device: id, param })
            } else {
                None
            }
        },
        PipewireCommand::SetDeviceProfile(id, profile_index) => {
            if storage.device(id).is_some() {
                let param = device_set_profile(profile_index);
                Some(PipewireRequest::SetDeviceProfile { device: id, param })
            } else {
                None
            }
        },
    }
}

/// Binding a node makes every command that addresses it reach it, and every command that
/// reached a bound object before still reaches one.
pub proof fn lemma_add_node_binds<N, D, M, L>(
    before: ListenerStorage<N, D, M, L>,
    after: ListenerStorage<N, D, M, L>,
    id: u32,
    node: N,
)
    requires
        after.nodes_view() == before.nodes_view().insert(id, node),
        after.devices_view() == before.devices_view(),
        after.metadata_view() == before.metadata_view(),
    ensures
        forall|c: PipewireCommand| addresses_stored(c, before) ==> #[trigger] addresses_stored(c, after),
        forall|v: Vec<u32>| #[trigger] addresses_stored(PipewireCommand::SetNodeVolume(id, v), after),
        forall|m: bool| #[trigger] addresses_stored(PipewireCommand::MuteNode(id, m), after),
        bound_of(after) == after_event(bound_of(before), LoopEvent::NodeAnnounced(id)),
{
    assert(after.nodes_view().dom() =~= before.nodes_view().dom().insert(id));
}

/// Binding a device makes every command that addresses it reach it, and every command
/// that reached a bound object before still reaches one.
pub proof fn lemma_add_device_binds<N, D, M, L>(
    before: ListenerStorage<N, D, M, L>,
    after: ListenerStorage<N, D, M, L>,
    id: u32,
    device: D,
)
    requires
        after.devices_view() == before.devices_view().insert(id, device),
        after.nodes_view() == before.nodes_view(),
        after.metadata_view() == before.metadata_view(),
    ensures
        forall|c: PipewireCommand| addresses_stored(c, before) ==> #[trigger] addresses_stored(c, after),
        forall|ri: u32, rd: u32, v: Vec<u32>|
            #[trigger] addresses_stored(PipewireCommand::SetDeviceVolume(id, ri, rd, v), after),
        forall|ri: u32, rd: u32, m: bool|
            #[trigger] addresses_stored(PipewireCommand::SetDeviceMute(id, ri, rd, m), after),
        forall|ri: u32, rd: u32| #[trigger] addresses_stored(PipewireCommand::SetDeviceRoute(id, ri, rd), after),
        forall|pi: u32| #[trigger] addresses_stored(PipewireCommand::SetDeviceProfile(id, pi), after),
        bound_of(after) == after_event(bound_of(before), LoopEvent::DeviceAnnounced(id)),
{
    assert(after.devices_view().dom() =~= before.devices_view().dom().insert(id));
}

/// Binding the default metadata makes default changes reach it, and every command that
/// reached a bound object before still reaches one.
pub proof fn lemma_set_metadata_binds<N, D, M, L>(
    before: ListenerStorage<N, D, M, L>,
    after: ListenerStorage<N, D, M, L>,
    metadata: M,
)
    requires
        after.metadata_view() == Some(metadata),
        after.nodes_view() == before.nodes_view(),
        after.devices_view() == before.devices_view(),
    ensures
        forall|c: PipewireCommand| addresses_stored(c, before) ==> #[trigger] addresses_stored(c, after),
        forall|name: String| #[trigger] addresses_stored(PipewireCommand::SetDefaultSink(name), after),
        forall|name: String| #[trigger] addresses_stored(PipewireCommand::SetDefaultSource(name), after),
        bound_of(after) == after_event(bound_of(before), LoopEvent::DefaultMetadataAnnounced),
{
}

/// After the first `k` events the storage has bound what those events announced.
proof fn lemma_bound_is_announced<N, D, M, L>(
    events: Seq<LoopEvent>,
    storages: Seq<ListenerStorage<N, D, M, L>>,
    k: int,
)
    requires
        storages.len() == events.len() + 1,
        bound_of(storages[0]) == (Set::<u32>::empty(), Set::<u32>::empty(), false),
        forall|i: int|
            0 <= i < events.len() ==> #[trigger] bound_of(storages[i + 1]) == after_event(
                bound_of(storages[i]),
                events[i],
            ),
        0 <= k <= events.len(),
    ensures
        bound_of(storages[k]) == announced(events.take(k)),
    decreases k,
{
    if k == 0 {
        assert(events.take(0) =~= Seq::<LoopEvent>::empty());
    } else {
        lemma_bound_is_announced(events, storages, k - 1);
        assert(events.take(k).drop_last() =~= events.take(k - 1));
        assert(events.take(k).last() == events[k - 1]);
        assert(bound_of(storages[(k - 1) + 1]) == after_event(bound_of(storages[k - 1]), events[k - 1]));
    }
}

/// The PipeWire loop starts from an empty storage and, for each event in arrival order,
/// binds what an announcement names (and nothing for a command). Then a command that
/// arrives after the first `i` events reaches its object exactly when that object was
/// announced among those events: commands act on the objects discovered before them.
pub proof fn lemma_commands_act_on_announced<N, D, M, L>(
    events: Seq<LoopEvent>,
    storages: Seq<ListenerStorage<N, D, M, L>>,
)
    requires
        storages.len() == events.len() + 1,
        bound_of(storages[0]) == (Set::<u32>::empty(), Set::<u32>::empty(), false),
        forall|i: int|
            0 <= i < events.len() ==> #[trigger] bound_of(storages[i + 1]) == after_event(
                bound_of(storages[i]),
                events[i],
            ),
    ensures
        forall|i: int| 0 <= i <= events.len() ==> #[trigger] bound_of(storages[i]) == announced(events.take(i)),
        forall|i: int, c: PipewireCommand|
            0 <= i <= events.len() ==> (#[trigger] addresses_stored(c, storages[i]) <==> addresses_bound(
                c,
                announced(events.take(i)).0,
                announced(events.take(i)).1,
                announced(events.take(i)).2,
            )),
{
    assert forall|i: int| 0 <= i <= events.len() implies #[trigger] bound_of(storages[i]) == announced(
        events.take(i),
    ) by {
        lemma_bound_is_announced(events, storages, i);
    }
    assert forall|i: int, c: PipewireCommand| 0 <= i <= events.len() implies (#[trigger] addresses_stored(
        c,
        storages[i],
    ) <==> addresses_bound(
        c,
        announced(events.take(i)).0,
        announced(events.take(i)).1,
        announced(events.take(i)).2,
    )) by {
        lemma_bound_is_announced(events, storages, i);
    }
}

} // verus!
