//! What the audio side of the bar reports about PipeWire nodes and devices.
//! Volumes are carried as the IEEE-754 bit patterns of PipeWire's own values.

use vstd::prelude::*;
use vstd::string::*;

verus! {

/// An audio node (a sink, a source, a stream).
pub struct PwNode {
    pub id: u32,
    pub name: String,
    pub nick: String,
    pub class: String,
    pub description: String,
    pub alsa_name: String,
    pub card_name: String,
    pub mixer_name: String,
    pub icon_name: String,
    pub device_id: u32,
    pub client_id: u32,
}

/// The volume (left, right) and mute state of a node.
pub struct PwNodeProps {
    pub id: u32,
    pub volume: (u32, u32),
    pub muted: bool,
}

/// An audio device (a card).
pub struct PwDevice {
    pub id: u32,
    pub name: String,
    pub nick: String,
    pub description: String,
    pub alsa_name: String,
    pub card_name: String,
    pub mixer_name: String,
    pub icon_name: String,
    pub client_id: u32,
}

/// A class of nodes a profile provides, with the devices that provide them.
pub struct PwMediaClass {
    pub name: String,
    pub devices: Vec<i32>,
}

/// A profile of a device.
pub struct PwDeviceProfile {
    pub device_id: u32,
    pub index: i32,
    pub name: String,
    pub description: String,
    pub priority: i32,
    pub available: bool,
    pub classes: Vec<PwMediaClass>,
}

#[derive(PartialEq, Eq, Structural)]
pub enum PwDeviceRouteDirection {
    Input,
    Output,
    Unknown,
}

/// A route of a device: an input or output such as headphones or speakers.
pub struct PwDeviceRoute {
    pub device_id: u32,
    pub index: i32,
    pub direction: PwDeviceRouteDirection,
    pub name: String,
    pub description: String,
    pub priority: i32,
    pub available: bool,
    pub volume: (u32, u32),
    pub mute: bool,
    pub profiles: Vec<i32>,
    pub devices: Vec<i32>,
}

/// The name of a default sink or source.
pub struct PwDefault {
    pub name: String,
}

/// An event of the audio side.
pub enum PipewireEvent {
    Node(PwNode),
    NodeRemoved(u32),
    NodeProps(PwNodeProps),
    Device(PwDevice),
    DeviceEnumProfile(PwDeviceProfile),
    DeviceEnumRoute(PwDeviceRoute),
    DeviceProfile(PwDeviceProfile),
    DeviceRoute(PwDeviceRoute),
    DefaultSink(PwDefault),
    DefaultSource(PwDefault),
}

impl Default for PwDeviceRouteDirection {
    fn default() -> (r: PwDeviceRouteDirection)
        ensures
            r == PwDeviceRouteDirection::Unknown,
    {
        PwDeviceRouteDirection::Unknown
    }
}

impl Default for PwDefault {
    fn default() -> (r: PwDefault)
        ensures
            r.name@ == Seq::<char>::empty(),
    {
        PwDefault { name: String::new() }
    }
}

impl PipewireEvent {
    /// The name of the variant, as written in the source.
    pub open spec fn variant_name_spec(&self) -> Seq<char> {
        match self {
            PipewireEvent::Node(_) => "Node"@,
            PipewireEvent::NodeRemoved(_) => "NodeRemoved"@,
            PipewireEvent::NodeProps(_) => "NodeProps"@,
            PipewireEvent::Device(_) => "Device"@,
            PipewireEvent::DeviceEnumProfile(_) => "DeviceEnumProfile"@,
            PipewireEvent::DeviceEnumRoute(_) => "DeviceEnumRoute"@,
            PipewireEvent::DeviceProfile(_) => "DeviceProfile"@,
            PipewireEvent::DeviceRoute(_) => "DeviceRoute"@,
            PipewireEvent::DefaultSink(_) => "DefaultSink"@,
            PipewireEvent::DefaultSource(_) => "DefaultSource"@,
        }
    }

    /// The name of the variant, as written in the source.
    pub fn variant_name(&self) -> (r: &'static str)
        ensures
            r@ == self.variant_name_spec(),
    {
        match self {
            PipewireEvent::Node(_) => "Node",
            PipewireEvent::NodeRemoved(_) => "NodeRemoved",
            PipewireEvent::NodeProps(_) => "NodeProps",
            PipewireEvent::Device(_) => "Device",
            PipewireEvent::DeviceEnumProfile(_) => "DeviceEnumProfile",
            PipewireEvent::DeviceEnumRoute(_) => "DeviceEnumRoute",
            PipewireEvent::DeviceProfile(_) => "DeviceProfile",
            PipewireEvent::DeviceRoute(_) => "DeviceRoute",
            PipewireEvent::DefaultSink(_) => "DefaultSink",
            PipewireEvent::DefaultSource(_) => "DefaultSource",
        }
    }
}

} // verus!
