//! What the tray side of the bar reports to the front end, and what it is asked to do.

use vstd::prelude::*;

verus! {

/// A tray item as first reported when it registers.
pub struct TrayItem {
    pub id: String,
    pub title: String,
    pub status: String,
}

/// A new icon (PNG bytes) for a tray item.
pub struct TrayItemNewIcon {
    pub id: String,
    pub icon: Vec<u8>,
}

/// A changed text property (`title` or `status`) of a tray item.
pub struct TrayItemNewProp {
    pub id: String,
    pub prop_name: String,
    pub prop: String,
}

/// One entry of a tray item's menu.
pub struct MenuEntry {
    pub id: i32,
    pub label: String,
    pub visible: bool,
    pub type_: String,
}

/// The top-level menu of a tray item.
pub struct TrayItemNewMenu {
    pub id: String,
    pub menu: Vec<MenuEntry>,
}

/// An event of the tray side.
pub enum DbusEvent {
    RegisterTrayItem(TrayItem),
    UnregisterTrayItem(String),
    TrayItemNewIcon(TrayItemNewIcon),
    TrayItemNewProp(TrayItemNewProp),
    TrayItemNewMenu(TrayItemNewMenu),
}

/// A request to the tray side: activate menu entry `.1` of the item with id `.0`.
pub enum DbusCommand {
    CallMenuEntry(String, i32),
}

impl DbusEvent {
    /// The name of the variant, as written in the source.
    pub open spec fn variant_name_spec(&self) -> Seq<char> {
        match self {
            DbusEvent::RegisterTrayItem(_) => "RegisterTrayItem"@,
            DbusEvent::UnregisterTrayItem(_) => "UnregisterTrayItem"@,
            DbusEvent::TrayItemNewIcon(_) => "TrayItemNewIcon"@,
            DbusEvent::TrayItemNewProp(_) => "TrayItemNewProp"@,
            DbusEvent::TrayItemNewMenu(_) => "TrayItemNewMenu"@,
        }
    }

    /// The name of the variant, as written in the source.
    pub fn variant_name(&self) -> (r: &'static str)
        ensures
            r@ == self.variant_name_spec(),
    {
        match self {
            DbusEvent::RegisterTrayItem(_) => "RegisterTrayItem",
            DbusEvent::UnregisterTrayItem(_) => "UnregisterTrayItem",
            DbusEvent::TrayItemNewIcon(_) => "TrayItemNewIcon",
            DbusEvent::TrayItemNewProp(_) => "TrayItemNewProp",
            DbusEvent::TrayItemNewMenu(_) => "TrayItemNewMenu",
        }
    }
}

impl DbusCommand {
    /// The name of the variant, as written in the source.
    pub open spec fn variant_name_spec(&self) -> Seq<char> {
        match self {
            DbusCommand::CallMenuEntry(..) => "CallMenuEntry"@,
        }
    }

    /// The name of the variant, as written in the source.
    pub fn variant_name(&self) -> (r: &'static str)
        ensures
            r@ == self.variant_name_spec(),
    {
        match self {
            DbusCommand::CallMenuEntry(..) => "CallMenuEntry",
        }
    }
}

} // verus!
