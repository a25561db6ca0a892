//! Workspaces and the active window of the Hyprland compositor, as the bar shows them.

use vstd::prelude::*;
use vstd::string::*;

verus! {

/// A request to the compositor: switch to the workspace with this id.
pub enum HyprlandCommand {
    SetWorkspace(i32),
}

/// A workspace and the monitor it is on.
pub struct WorkspaceInfo {
    pub id: i32,
    pub name: String,
    pub monitor: i128,
    pub monitor_name: String,
}

/// The class and title of the focused window.
pub struct ActiveWindow {
    pub class: String,
    pub title: String,
}

/// An event of the compositor side.
pub enum HyprlandEvent {
    ActiveWorkspace(i32),
    ActiveWindow(ActiveWindow),
    Workspaces(Vec<WorkspaceInfo>),
}

impl Default for ActiveWindow {
    /// No window: empty class and title.
    fn default() -> (r: ActiveWindow)
        ensures
            r.class@ == Seq::<char>::empty(),
            r.title@ == Seq::<char>::empty(),
    {
        ActiveWindow { class: String::new(), title: String::new() }
    }
}

impl ActiveWindow {
    /// The active window that a window-change event reports: the event's class and title,
    /// or empty ones when no window has focus.
    pub fn from_event(data: Option<(String, String)>) -> (r: ActiveWindow)
        ensures
            match data {
                Some((class, title)) => r.class == class && r.title == title,
                None => r.class@ == Seq::<char>::empty() && r.title@ == Seq::<char>::empty(),
            },
    {
        match data {
            Some((class, title)) => ActiveWindow { class, title },
            None => ActiveWindow { class: String::new(), title: String::new() },
        }
    }
}

impl WorkspaceInfo {
    /// What the bar keeps of a workspace reported by the compositor; a workspace without
    /// a monitor id is put on monitor 0.
    pub fn from_parts(id: i32, name: String, monitor_id: Option<i128>, monitor_name: String) -> (r: WorkspaceInfo)
        ensures
            r.id == id,
            r.name == name,
            r.monitor == (match monitor_id {
                Some(m) => m,
                None => 0,
            }),
            r.monitor_name == monitor_name,
    {
        let monitor = match monitor_id {
            Some(m) => m,
            None => 0,
        };
        WorkspaceInfo { id, name, monitor, monitor_name }
    }
}

impl HyprlandCommand {
    /// The name of the variant, as written in the source.
    pub open spec fn variant_name_spec(&self) -> Seq<char> {
        match self {
            HyprlandCommand::SetWorkspace(_) => "SetWorkspace"@,
        }
    }

    /// The name of the variant, as written in the source.
    pub fn variant_name(&self) -> (r: &'static str)
        ensures
            r@ == self.variant_name_spec(),
    {
        match self {
            HyprlandCommand::SetWorkspace(_) => "SetWorkspace",
        }
    }
}

impl HyprlandEvent {
    /// The name of the variant, as written in the source.
    pub open spec fn variant_name_spec(&self) -> Seq<char> {
        match self {
            HyprlandEvent::ActiveWorkspace(_) => "ActiveWorkspace"@,
            HyprlandEvent::ActiveWindow(_) => "ActiveWindow"@,
            HyprlandEvent::Workspaces(_) => "Workspaces"@,
        }
    }

    /// The name of the variant, as written in the source.
    pub fn variant_name(&self) -> (r: &'static str)
        ensures
            r@ == self.variant_name_spec(),
    {
        match self {
            HyprlandEvent::ActiveWorkspace(_) => "ActiveWorkspace",
            HyprlandEvent::ActiveWindow(_) => "ActiveWindow",
            HyprlandEvent::Workspaces(_) => "Workspaces",
        }
    }
}

} // verus!
