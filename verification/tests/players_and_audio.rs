use shellbar::hyprland::{ActiveWindow, HyprlandCommand, HyprlandEvent, WorkspaceInfo};
use shellbar::monitors::{arrange_bars, bar_layer_settings, creation_order, select_primary, BarKeyboardMode, BarLayer};
use shellbar::mpris::{after_connect_attempt, is_media_player_name, media_player_names, owner_change_action, LoopStatus,
    OwnerChangeAction, PlaybackStatus, PlayerAction, PlayerCommand};
use shellbar::dbus_events::{DbusCommand, DbusEvent};
use shellbar::routing::{Command, Event};

#[test]
fn playback_and_loop_status() {
    assert!(PlaybackStatus::from_property(Some("Playing")) == PlaybackStatus::Playing);
    assert!(PlaybackStatus::from_property(Some("Paused")) == PlaybackStatus::Paused);
    assert!(PlaybackStatus::from_property(Some("Stopped")) == PlaybackStatus::Stopped);
    assert!(PlaybackStatus::from_property(Some("playing")) == PlaybackStatus::Stopped);
    assert!(PlaybackStatus::from_property(None) == PlaybackStatus::Stopped);
    assert!(LoopStatus::from_property(Some("Track")) == LoopStatus::Track);
    assert!(LoopStatus::from_property(Some("Playlist")) == LoopStatus::Playlist);
    assert!(LoopStatus::from_property(Some("None")) == LoopStatus::NoLoop);
    assert!(LoopStatus::from_property(None) == LoopStatus::NoLoop);
}

#[test]
fn media_player_name_filter() {
    assert!(is_media_player_name("org.mpris.MediaPlayer2.firefox.instance_1_84"));
    assert!(!is_media_player_name("org.freedesktop.Notifications"));
    let names = vec![
        "org.freedesktop.DBus".to_string(),
        "org.mpris.MediaPlayer2.spotify".to_string(),
        ":1.7".to_string(),
        "org.mpris.MediaPlayer2.vlc".to_string(),
    ];
    assert_eq!(
        media_player_names(&names),
        vec!["org.mpris.MediaPlayer2.spotify".to_string(), "org.mpris.MediaPlayer2.vlc".to_string()]
    );
}

#[test]
fn owner_changes() {
    assert!(owner_change_action("org.kde.kded6", true) == OwnerChangeAction::Ignore);
    assert!(owner_change_action("org.mpris.MediaPlayer2.vlc", true) == OwnerChangeAction::Connect);
    assert!(owner_change_action("org.mpris.MediaPlayer2.vlc", false) == OwnerChangeAction::Disconnect);
    assert!(after_connect_attempt(true).is_none());
    assert!(after_connect_attempt(false) == Some(OwnerChangeAction::Disconnect));
}

#[test]
fn player_commands() {
    let c = PlayerCommand::Seek("org.mpris.MediaPlayer2.vlc".to_string(), -5000);
    assert_eq!(c.target(), "org.mpris.MediaPlayer2.vlc");
    assert!(c.action() == PlayerAction::Seek(-5000));
    assert!(PlayerCommand::Prev("p".to_string()).action() == PlayerAction::Previous);
    assert!(PlayerCommand::Shuffle("p".to_string(), true).action() == PlayerAction::SetShuffle(true));
    assert_eq!(PlayerCommand::Play("p".to_string()).variant_name(), "Play");
}

#[test]
fn hyprland_values() {
    let w = ActiveWindow::from_event(Some(("kitty".to_string(), "~".to_string())));
    assert_eq!((w.class.as_str(), w.title.as_str()), ("kitty", "~"));
    let none = ActiveWindow::from_event(None);
    assert_eq!((none.class.as_str(), none.title.as_str()), ("", ""));
    let d = ActiveWindow::default();
    assert!(d.class.is_empty() && d.title.is_empty());
    let ws = WorkspaceInfo::from_parts(3, "3".to_string(), None, "DP-1".to_string());
    assert_eq!(ws.monitor, 0);
    let ws = WorkspaceInfo::from_parts(4, "web".to_string(), Some(1), "HDMI-A-1".to_string());
    assert_eq!((ws.id, ws.monitor, ws.monitor_name.as_str()), (4, 1, "HDMI-A-1"));
}

#[test]
fn command_and_event_paths() {
    assert_eq!(Command::Hyprland(HyprlandCommand::SetWorkspace(2)).path(), "Hyprland/SetWorkspace");
    assert_eq!(Command::Dbus(DbusCommand::CallMenuEntry("a".to_string(), 1)).path(), "Dbus/CallMenuEntry");
    assert_eq!(Command::Player(PlayerCommand::Next("p".to_string())).path(), "Player/Next");
    assert_eq!(Event::Dbus(DbusEvent::UnregisterTrayItem("x".to_string())).path(), "Dbus/UnregisterTrayItem");
    assert_eq!(Event::Hyprland(HyprlandEvent::ActiveWorkspace(1)).path(), "Hyprland/ActiveWorkspace");
    assert_eq!(
        Event::Pipewire(shellbar::pw_events::PipewireEvent::NodeRemoved(3)).path(),
        "Pipewire/NodeRemoved"
    );
}

#[test]
fn primary_monitor_selection() {
    assert_eq!(select_primary(&vec![false, true, false]), 1);
    assert_eq!(select_primary(&vec![true, false, true]), 2);
    assert_eq!(select_primary(&vec![false, false]), 0);
    assert_eq!(select_primary(&vec![]), 0);
}

#[test]
fn bars_end_in_monitor_order() {
    let order = creation_order(4, 2);
    assert_eq!(order, vec![2, 0, 1, 3]);
    let bars = arrange_bars(order[0], order[1..].to_vec(), 2);
    assert_eq!(bars, vec![0, 1, 2, 3]);
    assert_eq!(creation_order(1, 0), vec![0]);
}

#[test]
fn bar_layers() {
    assert!(bar_layer_settings("top") == (BarLayer::Top, BarKeyboardMode::OnDemand));
    assert!(bar_layer_settings("bottom") == (BarLayer::Bottom, BarKeyboardMode::Disabled));
    assert!(bar_layer_settings("Top") == (BarLayer::Bottom, BarKeyboardMode::Disabled));
}
