//! The requests the front end sends and the events it receives, with the channel path
//! each travels under.

use vstd::prelude::*;
use vstd::string::*;
use crate::dbus_events::{DbusCommand, DbusEvent, TrayItem, TrayItemNewIcon, TrayItemNewProp, TrayItemNewMenu};
use crate::hyprland::{HyprlandCommand, HyprlandEvent, ActiveWindow, WorkspaceInfo};
use crate::mpris::PlayerCommand;
use crate::pw_command::PipewireCommand;
use crate::pw_events::{PipewireEvent, PwNode, PwNodeProps, PwDevice, PwDeviceProfile, PwDeviceRoute, PwDefault};
use crate::text::concat_str;

verus! {

/// A request from the front end, by the side that carries it out.
pub enum Command {
    Dbus(DbusCommand),
    Hyprland(HyprlandCommand),
    Pipewire(PipewireCommand),
    Player(PlayerCommand),
}

/// An event for the front end, by the side that reports it.
pub enum Event {
    Dbus(DbusEvent),
    Hyprland(HyprlandEvent),
    Pipewire(PipewireEvent),
}

impl Command {
    /// `<side>/<variant>`.
    pub open spec fn path_spec(&self) -> Seq<char> {
        match self {
            Command::Hyprland(x) => "Hyprland/"@ + x.variant_name_spec(),
            Command::Pipewire(x) => "Pipewire/"@ + x.variant_name_spec(),
            Command::Dbus(x) => "Dbus/"@ + x.variant_name_spec(),
            Command::Player(x) => "Player/"@ + x.variant_name_spec(),
        }
    }

    /// The path of the command: the side that carries it out, a `/`, and the variant.
    pub fn path(&self) -> (r: String)
        ensures
            r@ == self.path_spec(),
    {
        match self {
            Command::Hyprland(x) => concat_str("Hyprland/", x.variant_name()),
            Command::Pipewire(x) => concat_str("Pipewire/", x.variant_name()),
            Command::Dbus(x) => concat_str("Dbus/", x.variant_name()),
            Command::Player(x) => concat_str("Player/", x.variant_name()),
        }
    }
}

impl Event {
    /// `<side>/<variant>`.
    pub open spec fn path_spec(&self) -> Seq<char> {
        match self {
            Event::Dbus(x) => "Dbus/"@ + x.variant_name_spec(),
            Event::Hyprland(x) => "Hyprland/"@ + x.variant_name_spec(),
            Event::Pipewire(x) => "Pipewire/"@ + x.variant_name_spec(),
        }
    }

    /// The path the event is emitted under: the side that reports it, a `/`, and the
    /// variant.
    pub fn path(&self) -> (r: String)
        ensures
            r@ == self.path_spec(),
    {
        match self {
            Event::Dbus(x) => concat_str("Dbus/", x.variant_name()),
            Event::Hyprland(x) => concat_str("Hyprland/", x.variant_name()),
            Event::Pipewire(x) => concat_str("Pipewire/", x.variant_name()),
        }
    }
}

/// Each audio event travels under `Pipewire/` and its variant's name as declared.
pub proof fn lemma_pipewire_event_paths()
    ensures
        forall|x: PwNode| #[trigger] Event::Pipewire(PipewireEvent::Node(x)).path_spec() == "Pipewire/Node"@,
        forall|x: u32| #[trigger] Event::Pipewire(PipewireEvent::NodeRemoved(x)).path_spec() == "Pipewire/NodeRemoved"@,
        forall|x: PwNodeProps| #[trigger] Event::Pipewire(PipewireEvent::NodeProps(x)).path_spec() == "Pipewire/NodeProps"@,
        forall|x: PwDevice| #[trigger] Event::Pipewire(PipewireEvent::Device(x)).path_spec() == "Pipewire/Device"@,
        forall|x: PwDeviceProfile| #[trigger] Event::Pipewire(PipewireEvent::DeviceEnumProfile(x)).path_spec() == "Pipewire/DeviceEnumProfile"@,
        forall|x: PwDeviceRoute| #[trigger] Event::Pipewire(PipewireEvent::DeviceEnumRoute(x)).path_spec() == "Pipewire/DeviceEnumRoute"@,
        forall|x: PwDeviceProfile| #[trigger] Event::Pipewire(PipewireEvent::DeviceProfile(x)).path_spec() == "Pipewire/DeviceProfile"@,
        forall|x: PwDeviceRoute| #[trigger] Event::Pipewire(PipewireEvent::DeviceRoute(x)).path_spec() == "Pipewire/DeviceRoute"@,
        forall|x: PwDefault| #[trigger] Event::Pipewire(PipewireEvent::DefaultSink(x)).path_spec() == "Pipewire/DefaultSink"@,
        forall|x: PwDefault| #[trigger] Event::Pipewire(PipewireEvent::DefaultSource(x)).path_spec() == "Pipewire/DefaultSource"@,
{
    assert forall|x: PwNode| #[trigger] Event::Pipewire(PipewireEvent::Node(x)).path_spec() == "Pipewire/Node"@ by {
        reveal_strlit("Pipewire/");
        reveal_strlit("Node");
        reveal_strlit("Pipewire/Node");
        assert(Event::Pipewire(PipewireEvent::Node(x)).path_spec() =~= "Pipewire/Node"@);
    }
    assert forall|x: u32| #[trigger] Event::Pipewire(PipewireEvent::NodeRemoved(x)).path_spec() == "Pipewire/NodeRemoved"@ by {
        reveal_strlit("Pipewire/");
        reveal_strlit("NodeRemoved");
        reveal_strlit("Pipewire/NodeRemoved");
        assert(Event::Pipewire(PipewireEvent::NodeRemoved(x)).path_spec() =~= "Pipewire/NodeRemoved"@);
    }
    assert forall|x: PwNodeProps| #[trigger] Event::Pipewire(PipewireEvent::NodeProps(x)).path_spec() == "Pipewire/NodeProps"@ by {
        reveal_strlit("Pipewire/");
        reveal_strlit("NodeProps");
        reveal_strlit("Pipewire/NodeProps");
        assert(Event::Pipewire(PipewireEvent::NodeProps(x)).path_spec() =~= "Pipewire/NodeProps"@);
    }
    assert forall|x: PwDevice| #[trigger] Event::Pipewire(PipewireEvent::Device(x)).path_spec() == "Pipewire/Device"@ by {
        reveal_strlit("Pipewire/");
        reveal_strlit("Device");
        reveal_strlit("Pipewire/Device");
        assert(Event::Pipewire(PipewireEvent::Device(x)).path_spec() =~= "Pipewire/Device"@);
    }
    assert forall|x: PwDeviceProfile| #[trigger] Event::Pipewire(PipewireEvent::DeviceEnumProfile(x)).path_spec() == "Pipewire/DeviceEnumProfile"@ by {
        reveal_strlit("Pipewire/");
        reveal_strlit("DeviceEnumProfile");
        reveal_strlit("Pipewire/DeviceEnumProfile");
        assert(Event::Pipewire(PipewireEvent::DeviceEnumProfile(x)).path_spec() =~= "Pipewire/DeviceEnumProfile"@);
    }
    assert forall|x: PwDeviceRoute| #[trigger] Event::Pipewire(PipewireEvent::DeviceEnumRoute(x)).path_spec() == "Pipewire/DeviceEnumRoute"@ by {
        reveal_strlit("Pipewire/");
        reveal_strlit("DeviceEnumRoute");
        reveal_strlit("Pipewire/DeviceEnumRoute");
        assert(Event::Pipewire(PipewireEvent::DeviceEnumRoute(x)).path_spec() =~= "Pipewire/DeviceEnumRoute"@);
    }
    assert forall|x: PwDeviceProfile| #[trigger] Event::Pipewire(PipewireEvent::DeviceProfile(x)).path_spec() == "Pipewire/DeviceProfile"@ by {
        reveal_strlit("Pipewire/");
        reveal_strlit("DeviceProfile");
        reveal_strlit("Pipewire/DeviceProfile");
        assert(Event::Pipewire(PipewireEvent::DeviceProfile(x)).path_spec() =~= "Pipewire/DeviceProfile"@);
    }
    assert forall|x: PwDeviceRoute| #[trigger] Event::Pipewire(PipewireEvent::DeviceRoute(x)).path_spec() == "Pipewire/DeviceRoute"@ by {
        reveal_strlit("Pipewire/");
        reveal_strlit("DeviceRoute");
        reveal_strlit("Pipewire/DeviceRoute");
        assert(Event::Pipewire(PipewireEvent::DeviceRoute(x)).path_spec() =~= "Pipewire/DeviceRoute"@);
    }
    assert forall|x: PwDefault| #[trigger] Event::Pipewire(PipewireEvent::DefaultSink(x)).path_spec() == "Pipewire/DefaultSink"@ by {
        reveal_strlit("Pipewire/");
        reveal_strlit("DefaultSink");
        reveal_strlit("Pipewire/DefaultSink");
        assert(Event::Pipewire(PipewireEvent::DefaultSink(x)).path_spec() =~= "Pipewire/DefaultSink"@);
    }
    assert forall|x: PwDefault| #[trigger] Event::Pipewire(PipewireEvent::DefaultSource(x)).path_spec() == "Pipewire/DefaultSource"@ by {
        reveal_strlit("Pipewire/");
        reveal_strlit("DefaultSource");
        reveal_strlit("Pipewire/DefaultSource");
        assert(Event::Pipewire(PipewireEvent::DefaultSource(x)).path_spec() =~= "Pipewire/DefaultSource"@);
    }
}

/// Each tray and compositor event travels under its side and its variant's name as declared.
pub proof fn lemma_dbus_hyprland_event_paths()
    ensures
        forall|x: TrayItem| #[trigger] Event::Dbus(DbusEvent::RegisterTrayItem(x)).path_spec() == "Dbus/RegisterTrayItem"@,
        forall|x: String| #[trigger] Event::Dbus(DbusEvent::UnregisterTrayItem(x)).path_spec() == "Dbus/UnregisterTrayItem"@,
        forall|x: TrayItemNewIcon| #[trigger] Event::Dbus(DbusEvent::TrayItemNewIcon(x)).path_spec() == "Dbus/TrayItemNewIcon"@,
        forall|x: TrayItemNewProp| #[trigger] Event::Dbus(DbusEvent::TrayItemNewProp(x)).path_spec() == "Dbus/TrayItemNewProp"@,
        forall|x: TrayItemNewMenu| #[trigger] Event::Dbus(DbusEvent::TrayItemNewMenu(x)).path_spec() == "Dbus/TrayItemNewMenu"@,
        forall|x: i32| #[trigger] Event::Hyprland(HyprlandEvent::ActiveWorkspace(x)).path_spec() == "Hyprland/ActiveWorkspace"@,
        forall|x: ActiveWindow| #[trigger] Event::Hyprland(HyprlandEvent::ActiveWindow(x)).path_spec() == "Hyprland/ActiveWindow"@,
        forall|x: Vec<WorkspaceInfo>| #[trigger] Event::Hyprland(HyprlandEvent::Workspaces(x)).path_spec() == "Hyprland/Workspaces"@,
{
    assert forall|x: TrayItem| #[trigger] Event::Dbus(DbusEvent::RegisterTrayItem(x)).path_spec() == "Dbus/RegisterTrayItem"@ by {
        reveal_strlit("Dbus/");
        reveal_strlit("RegisterTrayItem");
        reveal_strlit("Dbus/RegisterTrayItem");
        assert(Event::Dbus(DbusEvent::RegisterTrayItem(x)).path_spec() =~= "Dbus/RegisterTrayItem"@);
    }
    assert forall|x: String| #[trigger] Event::Dbus(DbusEvent::UnregisterTrayItem(x)).path_spec() == "Dbus/UnregisterTrayItem"@ by {
        reveal_strlit("Dbus/");
        reveal_strlit("UnregisterTrayItem");
        reveal_strlit("Dbus/UnregisterTrayItem");
        assert(Event::Dbus(DbusEvent::UnregisterTrayItem(x)).path_spec() =~= "Dbus/UnregisterTrayItem"@);
    }
    assert forall|x: TrayItemNewIcon| #[trigger] Event::Dbus(DbusEvent::TrayItemNewIcon(x)).path_spec() == "Dbus/TrayItemNewIcon"@ by {
        reveal_strlit("Dbus/");
        reveal_strlit("TrayItemNewIcon");
        reveal_strlit("Dbus/TrayItemNewIcon");
        assert(Event::Dbus(DbusEvent::TrayItemNewIcon(x)).path_spec() =~= "Dbus/TrayItemNewIcon"@);
    }
    assert forall|x: TrayItemNewProp| #[trigger] Event::Dbus(DbusEvent::TrayItemNewProp(x)).path_spec() == "Dbus/TrayItemNewProp"@ by {
        reveal_strlit("Dbus/");
        reveal_strlit("TrayItemNewProp");
        reveal_strlit("Dbus/TrayItemNewProp");
        assert(Event::Dbus(DbusEvent::TrayItemNewProp(x)).path_spec() =~= "Dbus/TrayItemNewProp"@);
    }
    assert forall|x: TrayItemNewMenu| #[trigger] Event::Dbus(DbusEvent::TrayItemNewMenu(x)).path_spec() == "Dbus/TrayItemNewMenu"@ by {
        reveal_strlit("Dbus/");
        reveal_strlit("TrayItemNewMenu");
        reveal_strlit("Dbus/TrayItemNewMenu");
        assert(Event::Dbus(DbusEvent::TrayItemNewMenu(x)).path_spec() =~= "Dbus/TrayItemNewMenu"@);
    }
    assert forall|x: i32| #[trigger] Event::Hyprland(HyprlandEvent::ActiveWorkspace(x)).path_spec() == "Hyprland/ActiveWorkspace"@ by {
        reveal_strlit("Hyprland/");
        reveal_strlit("ActiveWorkspace");
        reveal_strlit("Hyprland/ActiveWorkspace");
        assert(Event::Hyprland(HyprlandEvent::ActiveWorkspace(x)).path_spec() =~= "Hyprland/ActiveWorkspace"@);
    }
    assert forall|x: ActiveWindow| #[trigger] Event::Hyprland(HyprlandEvent::ActiveWindow(x)).path_spec() == "Hyprland/ActiveWindow"@ by {
        reveal_strlit("Hyprland/");
        reveal_strlit("ActiveWindow");
        reveal_strlit("Hyprland/ActiveWindow");
        assert(Event::Hyprland(HyprlandEvent::ActiveWindow(x)).path_spec() =~= "Hyprland/ActiveWindow"@);
    }
    assert forall|x: Vec<WorkspaceInfo>| #[trigger] Event::Hyprland(HyprlandEvent::Workspaces(x)).path_spec() == "Hyprland/Workspaces"@ by {
        reveal_strlit("Hyprland/");
        reveal_strlit("Workspaces");
        reveal_strlit("Hyprland/Workspaces");
        assert(Event::Hyprland(HyprlandEvent::Workspaces(x)).path_spec() =~= "Hyprland/Workspaces"@);
    }
}

/// Each command travels under its side and its variant's name as declared.
pub proof fn lemma_command_paths()
    ensures
        forall|x: i32| #[trigger] Command::Hyprland(HyprlandCommand::SetWorkspace(x)).path_spec() == "Hyprland/SetWorkspace"@,
        forall|x: String, y: i32| #[trigger] Command::Dbus(DbusCommand::CallMenuEntry(x, y)).path_spec() == "Dbus/CallMenuEntry"@,
        forall|x: String| #[trigger] Command::Pipewire(PipewireCommand::SetDefaultSink(x)).path_spec() == "Pipewire/SetDefaultSink"@,
        forall|x: String| #[trigger] Command::Pipewire(PipewireCommand::SetDefaultSource(x)).path_spec() == "Pipewire/SetDefaultSource"@,
        forall|x: u32, v: Vec<u32>| #[trigger] Command::Pipewire(PipewireCommand::SetNodeVolume(x, v)).path_spec() == "Pipewire/SetNodeVolume"@,
        forall|x: u32, m: bool| #[trigger] Command::Pipewire(PipewireCommand::MuteNode(x, m)).path_spec() == "Pipewire/MuteNode"@,
        forall|x: u32, y: u32, z: u32, v: Vec<u32>| #[trigger] Command::Pipewire(PipewireCommand::SetDeviceVolume(x, y, z, v)).path_spec() == "Pipewire/SetDeviceVolume"@,
        forall|x: u32, y: u32, z: u32, m: bool| #[trigger] Command::Pipewire(PipewireCommand::SetDeviceMute(x, y, z, m)).path_spec() == "Pipewire/SetDeviceMute"@,
        forall|x: u32, y: u32, z: u32| #[trigger] Command::Pipewire(PipewireCommand::SetDeviceRoute(x, y, z)).path_spec() == "Pipewire/SetDeviceRoute"@,
        forall|x: u32, y: u32| #[trigger] Command::Pipewire(PipewireCommand::SetDeviceProfile(x, y)).path_spec() == "Pipewire/SetDeviceProfile"@,
        forall|x: String| #[trigger] Command::Player(PlayerCommand::Play(x)).path_spec() == "Player/Play"@,
        forall|x: String| #[trigger] Command::Player(PlayerCommand::Pause(x)).path_spec() == "Player/Pause"@,
        forall|x: String| #[trigger] Command::Player(PlayerCommand::Next(x)).path_spec() == "Player/Next"@,
        forall|x: String| #[trigger] Command::Player(PlayerCommand::Prev(x)).path_spec() == "Player/Prev"@,
        forall|x: String, p: i64| #[trigger] Command::Player(PlayerCommand::Seek(x, p)).path_spec() == "Player/Seek"@,
        forall|x: String, b: bool| #[trigger] Command::Player(PlayerCommand::Shuffle(x, b)).path_spec() == "Player/Shuffle"@,
{
    assert forall|x: i32| #[trigger] Command::Hyprland(HyprlandCommand::SetWorkspace(x)).path_spec() == "Hyprland/SetWorkspace"@ by {
        reveal_strlit("Hyprland/");
        reveal_strlit("SetWorkspace");
        reveal_strlit("Hyprland/SetWorkspace");
        assert(Command::Hyprland(HyprlandCommand::SetWorkspace(x)).path_spec() =~= "Hyprland/SetWorkspace"@);
    }
    assert forall|x: String, y: i32| #[trigger] Command::Dbus(DbusCommand::CallMenuEntry(x, y)).path_spec() == "Dbus/CallMenuEntry"@ by {
        reveal_strlit("Dbus/");
        reveal_strlit("CallMenuEntry");
        reveal_strlit("Dbus/CallMenuEntry");
        assert(Command::Dbus(DbusCommand::CallMenuEntry(x, y)).path_spec() =~= "Dbus/CallMenuEntry"@);
    }
    assert forall|x: String| #[trigger] Command::Pipewire(PipewireCommand::SetDefaultSink(x)).path_spec() == "Pipewire/SetDefaultSink"@ by {
        reveal_strlit("Pipewire/");
        reveal_strlit("SetDefaultSink");
        reveal_strlit("Pipewire/SetDefaultSink");
        assert(Command::Pipewire(PipewireCommand::SetDefaultSink(x)).path_spec() =~= "Pipewire/SetDefaultSink"@);
    }
    assert forall|x: String| #[trigger] Command::Pipewire(PipewireCommand::SetDefaultSource(x)).path_spec() == "Pipewire/SetDefaultSource"@ by {
        reveal_strlit("Pipewire/");
        reveal_strlit("SetDefaultSource");
        reveal_strlit("Pipewire/SetDefaultSource");
        assert(Command::Pipewire(PipewireCommand::SetDefaultSource(x)).path_spec() =~= "Pipewire/SetDefaultSource"@);
    }
    assert forall|x: u32, v: Vec<u32>| #[trigger] Command::Pipewire(PipewireCommand::SetNodeVolume(x, v)).path_spec() == "Pipewire/SetNodeVolume"@ by {
        reveal_strlit("Pipewire/");
        reveal_strlit("SetNodeVolume");
        reveal_strlit("Pipewire/SetNodeVolume");
        assert(Command::Pipewire(PipewireCommand::SetNodeVolume(x, v)).path_spec() =~= "Pipewire/SetNodeVolume"@);
    }
    assert forall|x: u32, m: bool| #[trigger] Command::Pipewire(PipewireCommand::MuteNode(x, m)).path_spec() == "Pipewire/MuteNode"@ by {
        reveal_strlit("Pipewire/");
        reveal_strlit("MuteNode");
        reveal_strlit("Pipewire/MuteNode");
        assert(Command::Pipewire(PipewireCommand::MuteNode(x, m)).path_spec() =~= "Pipewire/MuteNode"@);
    }
    assert forall|x: u32, y: u32, z: u32, v: Vec<u32>| #[trigger] Command::Pipewire(PipewireCommand::SetDeviceVolume(x, y, z, v)).path_spec() == "Pipewire/SetDeviceVolume"@ by {
        reveal_strlit("Pipewire/");
        reveal_strlit("SetDeviceVolume");
        reveal_strlit("Pipewire/SetDeviceVolume");
        assert(Command::Pipewire(PipewireCommand::SetDeviceVolume(x, y, z, v)).path_spec() =~= "Pipewire/SetDeviceVolume"@);
    }
    assert forall|x: u32, y: u32, z: u32, m: bool| #[trigger] Command::Pipewire(PipewireCommand::SetDeviceMute(x, y, z, m)).path_spec() == "Pipewire/SetDeviceMute"@ by {
        reveal_strlit("Pipewire/");
        reveal_strlit("SetDeviceMute");
        reveal_strlit("Pipewire/SetDeviceMute");
        assert(Command::Pipewire(PipewireCommand::SetDeviceMute(x, y, z, m)).path_spec() =~= "Pipewire/SetDeviceMute"@);
    }
    assert forall|x: u32, y: u32, z: u32| #[trigger] Command::Pipewire(PipewireCommand::SetDeviceRoute(x, y, z)).path_spec() == "Pipewire/SetDeviceRoute"@ by {
        reveal_strlit("Pipewire/");
        reveal_strlit("SetDeviceRoute");
        reveal_strlit("Pipewire/SetDeviceRoute");
        assert(Command::Pipewire(PipewireCommand::SetDeviceRoute(x, y, z)).path_spec() =~= "Pipewire/SetDeviceRoute"@);
    }
    assert forall|x: u32, y: u32| #[trigger] Command::Pipewire(PipewireCommand::SetDeviceProfile(x, y)).path_spec() == "Pipewire/SetDeviceProfile"@ by {
        reveal_strlit("Pipewire/");
        reveal_strlit("SetDeviceProfile");
        reveal_strlit("Pipewire/SetDeviceProfile");
        assert(Command::Pipewire(PipewireCommand::SetDeviceProfile(x, y)).path_spec() =~= "Pipewire/SetDeviceProfile"@);
    }
    assert forall|x: String| #[trigger] Command::Player(PlayerCommand::Play(x)).path_spec() == "Player/Play"@ by {
        reveal_strlit("Player/");
        reveal_strlit("Play");
        reveal_strlit("Player/Play");
        assert(Command::Player(PlayerCommand::Play(x)).path_spec() =~= "Player/Play"@);
    }
    assert forall|x: String| #[trigger] Command::Player(PlayerCommand::Pause(x)).path_spec() == "Player/Pause"@ by {
        reveal_strlit("Player/");
        reveal_strlit("Pause");
        reveal_strlit("Player/Pause");
        assert(Command::Player(PlayerCommand::Pause(x)).path_spec() =~= "Player/Pause"@);
    }
    assert forall|x: String| #[trigger] Command::Player(PlayerCommand::Next(x)).path_spec() == "Player/Next"@ by {
        reveal_strlit("Player/");
        reveal_strlit("Next");
        reveal_strlit("Player/Next");
        assert(Command::Player(PlayerCommand::Next(x)).path_spec() =~= "Player/Next"@);
    }
    assert forall|x: String| #[trigger] Command::Player(PlayerCommand::Prev(x)).path_spec() == "Player/Prev"@ by {
        reveal_strlit("Player/");
        reveal_strlit("Prev");
        reveal_strlit("Player/Prev");
        assert(Command::Player(PlayerCommand::Prev(x)).path_spec() =~= "Player/Prev"@);
    }
    assert forall|x: String, p: i64| #[trigger] Command::Player(PlayerCommand::Seek(x, p)).path_spec() == "Player/Seek"@ by {
        reveal_strlit("Player/");
        reveal_strlit("Seek");
        reveal_strlit("Player/Seek");
        assert(Command::Player(PlayerCommand::Seek(x, p)).path_spec() =~= "Player/Seek"@);
    }
    assert forall|x: String, b: bool| #[trigger] Command::Player(PlayerCommand::Shuffle(x, b)).path_spec() == "Player/Shuffle"@ by {
        reveal_strlit("Player/");
        reveal_strlit("Shuffle");
        reveal_strlit("Player/Shuffle");
        assert(Command::Player(PlayerCommand::Shuffle(x, b)).path_spec() =~= "Player/Shuffle"@);
    }
}

} // verus!
