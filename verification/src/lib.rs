//! Verified core logic of a desktop status bar: tray-item bookkeeping,
//! D-Bus menu parsing, media-player and audio-device event handling.

pub mod text;
pub mod string_map;
pub mod tray;
pub mod dbus_events;
pub mod menu;
pub mod watcher;
pub mod shared;
pub mod mpris;
pub mod hyprland;
pub mod pw_pod;
pub mod pw_events;
pub mod pw_node;
pub mod pw_device;
pub mod pw_command;
pub mod routing;
pub mod monitors;
