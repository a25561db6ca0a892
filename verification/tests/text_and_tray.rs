use shellbar::dbus_events::{DbusCommand, DbusEvent};
use shellbar::text::{concat_str, find_first, find_last, parse_u32, slice_string, starts_with, str_eq, usize_to_decimal};
use shellbar::tray::{get_status_notifier_item_proxy_data, icon_path, status_event, title_event, TrayItemHandle, TrayItemHandles};

fn handle(id: &str) -> (TrayItemHandle, tokio::sync::mpsc::Receiver<i32>, tokio::sync::oneshot::Receiver<()>) {
    let (menu_call_tx, menu_rx) = tokio::sync::mpsc::channel(4);
    let (unregister_tx, unregister_rx) = tokio::sync::oneshot::channel();
    (TrayItemHandle { id: id.to_string(), menu_call_tx, unregister_tx }, menu_rx, unregister_rx)
}

#[test]
fn find_first_and_last_occurrences() {
    assert_eq!(find_first("a:b:c", ':'), Some(1));
    assert_eq!(find_last("a:b:c", ':'), Some(3));
    assert_eq!(find_first("abc", '/'), None);
    assert_eq!(find_last("", ':'), None);
    assert_eq!(find_first("żółw/x", '/'), Some(4));
}

#[test]
fn string_helpers() {
    assert!(str_eq("abc", "abc"));
    assert!(!str_eq("abc", "abd"));
    assert!(!str_eq("abc", "ab"));
    assert!(starts_with("org.mpris.MediaPlayer2.spotify", "org.mpris"));
    assert!(!starts_with("org", "org.mpris"));
    assert!(starts_with("x", ""));
    assert_eq!(concat_str(":1.42", "/StatusNotifierItem"), ":1.42/StatusNotifierItem");
    assert_eq!(slice_string("héllo", 1, 3), "él");
}

#[test]
fn parse_u32_follows_std() {
    for text in ["42", "+7", "", "+", "0", "007", "4294967295", "4294967296", "99999999999", "12a", "-1", " 1", "+-1"] {
        assert_eq!(parse_u32(text), text.parse::<u32>().ok(), "input {:?}", text);
    }
}

#[test]
fn decimal_formatting() {
    assert_eq!(usize_to_decimal(0), "0");
    assert_eq!(usize_to_decimal(7), "7");
    assert_eq!(usize_to_decimal(1234567), "1234567");
    assert_eq!(usize_to_decimal(usize::MAX), usize::MAX.to_string());
}

#[test]
fn decimal_round_trip() {
    for n in [0u32, 9, 10, 65535, 4294967295] {
        assert_eq!(parse_u32(&usize_to_decimal(n as usize)), Some(n));
    }
}

#[test]
fn proxy_data_with_path() {
    assert_eq!(
        get_status_notifier_item_proxy_data(":1.45/org/ayatana/NotificationItem/nm"),
        Some((":1.45".to_string(), "/org/ayatana/NotificationItem/nm".to_string()))
    );
    assert_eq!(get_status_notifier_item_proxy_data("a:b/c:d"), Some(("a:b".to_string(), "/c:d".to_string())));
}

#[test]
fn proxy_data_with_bus_name_only() {
    assert_eq!(
        get_status_notifier_item_proxy_data("org.kde.StatusNotifierItem-1234-1:suffix"),
        Some(("org.kde.StatusNotifierItem-1234-1".to_string(), "/StatusNotifierItem".to_string()))
    );
    assert_eq!(get_status_notifier_item_proxy_data("a:b:c"), Some(("a:b".to_string(), "/StatusNotifierItem".to_string())));
}

#[test]
fn proxy_data_without_separator() {
    assert_eq!(get_status_notifier_item_proxy_data("org.example"), None);
    assert_eq!(get_status_notifier_item_proxy_data(""), None);
}

#[test]
fn tray_handles_insert_get_remove() {
    let mut handles = TrayItemHandles::new();
    let (h, _rx, _urx) = handle("nm-applet");
    handles.insert(":1.45/item".to_string(), h);
    assert_eq!(handles.get_by_id("nm-applet").map(|h| h.id.clone()), Some("nm-applet".to_string()));
    assert!(handles.get_by_id("other").is_none());
    assert!(handles.remove(":1.99/item").is_none());
    let removed = handles.remove(":1.45/item").expect("inserted");
    assert_eq!(removed.id, "nm-applet");
    assert!(handles.get_by_id("nm-applet").is_none());
}

#[test]
fn tray_handles_with_read_by_id() {
    let mut handles = TrayItemHandles::new();
    let (h, _rx, _urx) = handle("steam");
    handles.insert("svc".to_string(), h);
    assert_eq!(handles.with_read_by_id("steam", |h| h.map(|h| h.id.len())), Some(5));
    assert_eq!(handles.with_read_by_id("nope", |h| h.is_none()), true);
}

#[test]
fn tray_handles_reinsert_same_service() {
    let mut handles = TrayItemHandles::new();
    let (a, _ra, _ua) = handle("first");
    let (b, _rb, _ub) = handle("second");
    handles.insert("svc".to_string(), a);
    handles.insert("svc".to_string(), b);
    // the id of the replaced handle still names the service, which now holds the new handle
    assert_eq!(handles.get_by_id("first").map(|h| h.id.clone()), Some("second".to_string()));
    assert_eq!(handles.get_by_id("second").map(|h| h.id.clone()), Some("second".to_string()));
}

#[test]
fn menu_call_reaches_item_channel() {
    let mut handles = TrayItemHandles::new();
    let (h, mut rx, _urx) = handle("app");
    handles.insert("svc".to_string(), h);
    let (tx, entry) = handles.menu_call_target(&DbusCommand::CallMenuEntry("app".to_string(), 12)).expect("followed");
    tx.try_send(entry).unwrap();
    assert_eq!(rx.try_recv().unwrap(), 12);
    assert!(handles.menu_call_target(&DbusCommand::CallMenuEntry("missing".to_string(), 1)).is_none());
}

#[test]
fn unregister_item_reports_id() {
    let mut handles = TrayItemHandles::new();
    let (h, _rx, mut urx) = handle("app");
    handles.insert("svc".to_string(), h);
    let (tx, event) = handles.unregister_item("svc").expect("followed");
    tx.send(()).unwrap();
    assert!(urx.try_recv().is_ok());
    match event {
        DbusEvent::UnregisterTrayItem(id) => assert_eq!(id, "app"),
        _ => panic!("wrong event"),
    }
    assert!(handles.unregister_item("svc").is_none());
    assert!(handles.get_by_id("app").is_none());
}

#[test]
fn icon_path_and_prop_events() {
    assert_eq!(icon_path("nm-signal-100", "/usr/share/icons"), "/usr/share/icons/nm-signal-100.png");
    match title_event("app", "Network".to_string()) {
        DbusEvent::TrayItemNewProp(p) => {
            assert_eq!(p.id, "app");
            assert_eq!(p.prop_name, "title");
            assert_eq!(p.prop, "Network");
        }
        _ => panic!("wrong event"),
    }
    match status_event("app", "Active".to_string()) {
        DbusEvent::TrayItemNewProp(p) => assert_eq!((p.prop_name.as_str(), p.prop.as_str()), ("status", "Active")),
        _ => panic!("wrong event"),
    }
}

#[test]
fn tray_handles_resolve_each_id_to_its_own_handle() {
    let mut handles = TrayItemHandles::new();
    let (a, _ra, _ua) = handle("first");
    let (b, _rb, _ub) = handle("second");
    let (c, _rc, _uc) = handle("third");
    handles.insert(":1.1/a".to_string(), a);
    handles.insert(":1.2/b".to_string(), b);
    handles.insert(":1.3/c".to_string(), c);
    assert!(handles.remove(":1.2/b").is_some());
    for id in ["first", "third"] {
        assert_eq!(handles.with_read_by_id(id, |h| h.map(|h| h.id.clone())), Some(id.to_string()));
    }
    assert_eq!(handles.with_read_by_id("second", |h| h.is_none()), true);
}
