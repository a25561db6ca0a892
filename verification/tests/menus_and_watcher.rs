use shellbar::menu::{get_menu, parse_as_menu_entry, MenuParseError, MenuValue};
use shellbar::shared::rw_lock_handles;
use shellbar::watcher::{owner_change_event, register_host_event, register_item_event, SignalKind, WatcherEvent, WatcherRegistry};

fn props(pairs: Vec<(&str, MenuValue)>) -> MenuValue {
    MenuValue::Dict(pairs.into_iter().map(|(k, v)| (k.to_string(), v)).collect())
}

fn entry(id: i32, dict: MenuValue) -> MenuValue {
    MenuValue::Structure(vec![MenuValue::I32(id), dict, MenuValue::Structure(vec![])])
}

#[test]
fn menu_entry_with_all_properties() {
    let v = entry(
        7,
        props(vec![
            ("label", MenuValue::Variant(Box::new(MenuValue::Str("Quit".to_string())))),
            ("visible", MenuValue::Variant(Box::new(MenuValue::Bool(false)))),
            ("type", MenuValue::Str("separator".to_string())),
        ]),
    );
    let e = parse_as_menu_entry(&v).ok().expect("entry");
    assert_eq!(e.id, 7);
    assert_eq!(e.label, "Quit");
    assert!(!e.visible);
    assert_eq!(e.type_, "separator");
}

#[test]
fn menu_entry_defaults() {
    let v = entry(3, props(vec![("enabled", MenuValue::Bool(true)), ("label", MenuValue::I32(5))]));
    let e = parse_as_menu_entry(&v).ok().expect("entry");
    assert_eq!(e.id, 3);
    assert_eq!(e.label, "");
    assert!(e.visible);
    assert_eq!(e.type_, "entry");
}

#[test]
fn menu_entry_errors() {
    let two = MenuValue::Structure(vec![MenuValue::I32(1), props(vec![])]);
    match parse_as_menu_entry(&two) {
        Err(MenuParseError::WrongFieldCount(n)) => assert_eq!(n, 2),
        _ => panic!("expected a field count error"),
    }
    let bad_id = MenuValue::Structure(vec![MenuValue::Str("x".to_string()), props(vec![]), MenuValue::Other]);
    match parse_as_menu_entry(&bad_id) {
        Err(MenuParseError::FieldTypeError(t)) => assert_eq!(t, "i32"),
        _ => panic!("expected a field type error"),
    }
    let no_dict = MenuValue::Structure(vec![MenuValue::I32(1), MenuValue::Other, MenuValue::Other]);
    assert!(matches!(parse_as_menu_entry(&no_dict), Err(MenuParseError::NotAStructure)));
    assert!(matches!(parse_as_menu_entry(&MenuValue::I32(1)), Err(MenuParseError::NotAStructure)));
}

#[test]
fn menu_error_messages() {
    assert_eq!(MenuParseError::NotAStructure.message(), "Not a structure");
    assert_eq!(MenuParseError::WrongFieldCount(2).message(), "Wrong field count: 2, expected 3");
    assert_eq!(MenuParseError::WrongFieldCount(10).message(), "Wrong field count: 10, expected 3");
    assert_eq!(MenuParseError::FieldTypeError("i32").message(), "Field type error i32");
}

#[test]
fn menu_skips_malformed_children() {
    let children = vec![
        entry(1, props(vec![("label", MenuValue::Str("Open".to_string()))])),
        MenuValue::Other,
        entry(2, props(vec![("label", MenuValue::Str("Quit".to_string()))])),
    ];
    let menu = get_menu(&children);
    assert_eq!(menu.len(), 2);
    assert_eq!((menu[0].id, menu[0].label.as_str()), (1, "Open"));
    assert_eq!((menu[1].id, menu[1].label.as_str()), (2, "Quit"));
}

#[test]
fn watcher_register_and_unregister_item() {
    let mut reg = WatcherRegistry::new();
    let sig = reg.handle_event(WatcherEvent::RegisterItem(":1.5".to_string(), "/StatusNotifierItem".to_string())).expect("signal");
    assert!(sig.kind == SignalKind::ItemRegistered);
    assert_eq!(sig.entry, ":1.5/StatusNotifierItem");
    assert_eq!(reg.registered_status_notifier_items(), vec![":1.5/StatusNotifierItem".to_string()]);
    let sig = reg.handle_event(WatcherEvent::Unregister(":1.5".to_string())).expect("signal");
    assert!(sig.kind == SignalKind::ItemUnregistered);
    assert_eq!(sig.entry, ":1.5/StatusNotifierItem");
    assert!(reg.registered_status_notifier_items().is_empty());
    assert!(reg.handle_event(WatcherEvent::Unregister(":1.5".to_string())).is_none());
}

#[test]
fn watcher_host_registration() {
    let mut reg = WatcherRegistry::new();
    assert!(!reg.is_status_notifier_host_registered());
    let sig = reg.handle_event(WatcherEvent::RegisterHost(":1.2".to_string(), "/StatusNotifierHost".to_string())).unwrap();
    assert!(sig.kind == SignalKind::HostRegistered);
    assert!(reg.is_status_notifier_host_registered());
    let sig = reg.handle_event(WatcherEvent::Unregister(":1.2".to_string())).unwrap();
    assert!(sig.kind == SignalKind::HostUnregistered);
    assert_eq!(sig.entry, ":1.2/StatusNotifierHost");
    assert!(!reg.is_status_notifier_host_registered());
}

#[test]
fn watcher_unregister_prefers_item() {
    let mut reg = WatcherRegistry::new();
    reg.handle_event(WatcherEvent::RegisterItem("s".to_string(), "/i".to_string()));
    reg.handle_event(WatcherEvent::RegisterHost("s".to_string(), "/h".to_string()));
    let sig = reg.handle_event(WatcherEvent::Unregister("s".to_string())).unwrap();
    assert!(sig.kind == SignalKind::ItemUnregistered);
    assert!(reg.is_status_notifier_host_registered());
}

#[test]
fn watcher_reregistration_keeps_order() {
    let mut reg = WatcherRegistry::new();
    reg.handle_event(WatcherEvent::RegisterItem("a".to_string(), "/1".to_string()));
    reg.handle_event(WatcherEvent::RegisterItem("b".to_string(), "/2".to_string()));
    reg.handle_event(WatcherEvent::RegisterItem("a".to_string(), "/3".to_string()));
    assert_eq!(reg.registered_status_notifier_items(), vec!["a/3".to_string(), "b/2".to_string()]);
}

#[test]
fn watcher_event_decisions() {
    assert!(matches!(register_item_event(Some(":1.3".to_string()), "/p".to_string()), Some(WatcherEvent::RegisterItem(s, p)) if s == ":1.3" && p == "/p"));
    assert!(register_item_event(None, "/p".to_string()).is_none());
    assert!(matches!(register_host_event(Some("h".to_string()), "/x".to_string()), Some(WatcherEvent::RegisterHost(..))));
    assert!(owner_change_event(":1.3".to_string(), true).is_none());
    assert!(matches!(owner_change_event(":1.3".to_string(), false), Some(WatcherEvent::Unregister(n)) if n == ":1.3"));
}

#[test]
fn shared_registry_through_handles() {
    let (read, write) = rw_lock_handles(WatcherRegistry::new());
    write.with_write(|reg| {
        reg.handle_event(WatcherEvent::RegisterItem("a".to_string(), "/1".to_string()));
    });
    let items = read.with_read(|reg| reg.registered_status_notifier_items());
    assert_eq!(items, vec!["a/1".to_string()]);
    let other = read.clone_handle();
    assert!(other.with_read(|reg| !reg.is_status_notifier_host_registered()));
}
