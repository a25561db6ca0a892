use shellbar::pw_device::{device_info_ok, route_param_valid};
use shellbar::pw_node::node_info_ok;
use shellbar::pw_pod::number_prop_parses;
use shellbar::pw_command::{default_kind, device_set_profile, device_set_route_properties, handle_command, is_default_metadata,
    DefaultKind, ListenerStorage, PipewireCommand, PipewireRequest};
use shellbar::pw_device::{device_param_event, extract_profile, extract_route, parse_media_class};
use shellbar::pw_events::{PipewireEvent, PwDeviceRouteDirection};
use shellbar::pw_node::{extract_props, node_param_event, ParamKind};
use shellbar::pw_pod::{PodObject, PodProperty, PodValue, PARAM_AVAILABILITY_NO, PARAM_PROFILE_AVAILABLE, PARAM_PROFILE_CLASSES,
    PARAM_PROFILE_DESCRIPTION, PARAM_PROFILE_INDEX, PARAM_PROFILE_NAME, PARAM_PROFILE_PRIORITY, PARAM_ROUTE_AVAILABLE,
    PARAM_ROUTE_DEVICE, PARAM_ROUTE_DEVICES, PARAM_ROUTE_DIRECTION, PARAM_ROUTE_INDEX, PARAM_ROUTE_NAME, PARAM_ROUTE_PROPS,
    PARAM_ROUTE_SAVE, PROP_CHANNEL_VOLUMES, PROP_MUTE};

fn props(pairs: &[(&str, &str)]) -> Vec<(String, String)> {
    pairs.iter().map(|(k, v)| (k.to_string(), v.to_string())).collect()
}

fn prop(key: u32, value: PodValue) -> PodProperty {
    PodProperty { key, value }
}

fn object(properties: Vec<PodProperty>) -> PodObject {
    PodObject { type_: 0, id: 0, properties }
}

#[test]
fn node_info_from_props() {
    let p = props(&[
        ("object.id", "57"),
        ("node.name", "alsa_output.pci"),
        ("media.class", "Audio/Sink"),
        ("node.description", "Built-in Audio"),
        ("alsa.name", "ALC892"),
        ("device.id", "44"),
        ("client.id", "+31"),
        ("node.name", "ignored duplicate"),
    ]);
    let node = shellbar::pw_node::extract_info(Some(&p)).expect("node");
    assert_eq!(node.id, 57);
    assert_eq!(node.name, "alsa_output.pci");
    assert_eq!(node.class, "Audio/Sink");
    assert_eq!(node.description, "Built-in Audio");
    assert_eq!(node.alsa_name, "ALC892");
    assert_eq!(node.nick, "");
    assert_eq!((node.device_id, node.client_id), (44, 31));
    assert!(shellbar::pw_node::extract_info(Some(&props(&[("node.name", "x")]))).is_none());
    assert!(shellbar::pw_node::extract_info(None).is_none());
}

#[test]
fn device_info_from_props() {
    let p = props(&[("object.id", "44"), ("device.name", "alsa_card.pci"), ("alsa.card_name", "HDA Intel"), ("alsa.name", "x")]);
    let device = shellbar::pw_device::extract_info(Some(&p)).expect("device");
    assert_eq!(device.id, 44);
    assert_eq!(device.name, "alsa_card.pci");
    assert_eq!(device.card_name, "HDA Intel");
    assert_eq!(device.alsa_name, "");
    assert_eq!(device.client_id, 0);
    assert!(shellbar::pw_device::extract_info(Some(&props(&[]))).is_none());
}

#[test]
fn node_props_volume_and_mute() {
    let half = 0.5f32.to_bits();
    let quarter = 0.25f32.to_bits();
    let param = object(vec![
        prop(PROP_MUTE, PodValue::Bool(true)),
        prop(PROP_CHANNEL_VOLUMES, PodValue::FloatArray(vec![half, quarter, half])),
    ]);
    let p = extract_props(57, Some(&param)).expect("props");
    assert_eq!((p.id, p.volume, p.muted), (57, (half, quarter), true));
    let mono = object(vec![prop(PROP_CHANNEL_VOLUMES, PodValue::FloatArray(vec![half]))]);
    assert!(extract_props(57, Some(&mono)).is_none());
    assert!(extract_props(0, Some(&param)).is_none());
    assert!(extract_props(57, None).is_none());
    assert!(matches!(node_param_event(57, ParamKind::Props, Some(&param)), Some(PipewireEvent::NodeProps(_))));
    assert!(node_param_event(57, ParamKind::Route, Some(&param)).is_none());
}

fn classes() -> PodValue {
    PodValue::Struct(vec![
        PodValue::Int(2),
        PodValue::Struct(vec![PodValue::String("Audio/Sink".to_string()), PodValue::Int(1), PodValue::String("card.profile.devices".to_string()), PodValue::IntArray(vec![4, 5])]),
        PodValue::Struct(vec![PodValue::String("broken".to_string())]),
        PodValue::Struct(vec![PodValue::String("Audio/Source".to_string()), PodValue::Int(1), PodValue::String("x".to_string()), PodValue::IntArray(vec![6])]),
    ])
}

#[test]
fn media_classes() {
    let list = parse_media_class(&prop(PARAM_PROFILE_CLASSES, classes()));
    assert_eq!(list.len(), 2);
    assert_eq!((list[0].name.as_str(), list[0].devices.clone()), ("Audio/Sink", vec![4, 5]));
    assert_eq!((list[1].name.as_str(), list[1].devices.clone()), ("Audio/Source", vec![6]));
    let no_count = PodValue::Struct(vec![PodValue::Struct(vec![PodValue::String("A".to_string()), PodValue::Other, PodValue::Other, PodValue::IntArray(vec![])])]);
    assert_eq!(parse_media_class(&prop(PARAM_PROFILE_CLASSES, no_count)).len(), 1);
    assert!(parse_media_class(&prop(PARAM_PROFILE_CLASSES, PodValue::Int(3))).is_empty());
}

#[test]
fn profile_from_param() {
    let param = object(vec![
        prop(PARAM_PROFILE_INDEX, PodValue::Int(3)),
        prop(PARAM_PROFILE_NAME, PodValue::String("output:analog-stereo".to_string())),
        prop(PARAM_PROFILE_DESCRIPTION, PodValue::String("Analog Stereo Output".to_string())),
        prop(PARAM_PROFILE_PRIORITY, PodValue::Int(6500)),
        prop(PARAM_PROFILE_AVAILABLE, PodValue::Id(2)),
        prop(PARAM_PROFILE_CLASSES, classes()),
        prop(PARAM_PROFILE_INDEX, PodValue::String("not an int".to_string())),
    ]);
    let p = extract_profile(44, Some(&param)).expect("profile");
    assert_eq!((p.device_id, p.index, p.priority, p.available), (44, 3, 6500, true));
    assert_eq!(p.name, "output:analog-stereo");
    assert_eq!(p.description, "Analog Stereo Output");
    assert_eq!(p.classes.len(), 2);
    let unavailable = object(vec![prop(PARAM_PROFILE_AVAILABLE, PodValue::Id(PARAM_AVAILABILITY_NO))]);
    assert!(!extract_profile(44, Some(&unavailable)).unwrap().available);
    assert!(extract_profile(44, None).is_none());
    assert!(matches!(device_param_event(44, ParamKind::EnumProfile, Some(&param)), Some(PipewireEvent::DeviceEnumProfile(_))));
    assert!(matches!(device_param_event(44, ParamKind::Profile, Some(&param)), Some(PipewireEvent::DeviceProfile(_))));
}

#[test]
fn route_from_param() {
    let left = 0.7f32.to_bits();
    let right = 0.3f32.to_bits();
    let param = object(vec![
        prop(PARAM_ROUTE_INDEX, PodValue::Int(1)),
        prop(PARAM_ROUTE_DIRECTION, PodValue::Id(1)),
        prop(PARAM_ROUTE_NAME, PodValue::String("analog-output-headphones".to_string())),
        prop(PARAM_ROUTE_AVAILABLE, PodValue::Id(PARAM_AVAILABILITY_NO)),
        prop(PARAM_ROUTE_DEVICES, PodValue::IntArray(vec![4])),
        prop(PARAM_ROUTE_PROPS, PodValue::Object(object(vec![
            prop(PROP_CHANNEL_VOLUMES, PodValue::FloatArray(vec![left, right])),
            prop(PROP_MUTE, PodValue::Bool(true)),
        ]))),
    ]);
    let r = extract_route(44, Some(&param)).expect("route");
    assert_eq!((r.device_id, r.index, r.available, r.mute), (44, 1, false, true));
    assert!(r.direction == PwDeviceRouteDirection::Output);
    assert_eq!(r.volume, (left, right));
    assert_eq!(r.devices, vec![4]);
    assert!(r.profiles.is_empty());
    let mono = object(vec![
        prop(PARAM_ROUTE_DIRECTION, PodValue::Id(0)),
        prop(PARAM_ROUTE_PROPS, PodValue::Object(object(vec![prop(PROP_CHANNEL_VOLUMES, PodValue::FloatArray(vec![left, right, right]))]))),
    ]);
    let r = extract_route(44, Some(&mono)).expect("route");
    assert!(r.direction == PwDeviceRouteDirection::Input);
    assert_eq!(r.volume, (left, left));
    let empty = extract_route(9, Some(&object(vec![]))).unwrap();
    assert!(empty.direction == PwDeviceRouteDirection::Unknown);
    assert!(matches!(device_param_event(44, ParamKind::Route, Some(&param)), Some(PipewireEvent::DeviceRoute(_))));
    assert!(matches!(device_param_event(44, ParamKind::EnumRoute, Some(&param)), Some(PipewireEvent::DeviceEnumRoute(_))));
    assert!(device_param_event(44, ParamKind::Props, Some(&param)).is_none());
}

#[test]
fn route_and_profile_params() {
    let o = device_set_route_properties(2, 5, vec![prop(PROP_MUTE, PodValue::Bool(false))]);
    assert_eq!(o.properties.len(), 4);
    assert!(matches!(o.properties[0].value, PodValue::Int(2)) && o.properties[0].key == PARAM_ROUTE_INDEX);
    assert!(matches!(o.properties[1].value, PodValue::Int(5)) && o.properties[1].key == PARAM_ROUTE_DEVICE);
    assert_eq!(o.properties[2].key, PARAM_ROUTE_PROPS);
    assert!(matches!(o.properties[3].value, PodValue::Bool(true)) && o.properties[3].key == PARAM_ROUTE_SAVE);
    assert_eq!(device_set_route_properties(2, 5, vec![]).properties.len(), 3);
    let p = device_set_profile(7);
    assert_eq!(p.properties.len(), 2);
    assert!(matches!(p.properties[0].value, PodValue::Int(7)));
}

#[test]
fn metadata_decisions() {
    assert!(is_default_metadata(&props(&[("metadata.name", "default")])));
    assert!(!is_default_metadata(&props(&[("metadata.name", "route-settings")])));
    assert!(!is_default_metadata(&props(&[])));
    assert!(default_kind(Some("default.audio.sink")) == Some(DefaultKind::Sink));
    assert!(default_kind(Some("default.audio.source")) == Some(DefaultKind::Source));
    assert!(default_kind(Some("default.video.source")).is_none());
    assert!(default_kind(None).is_none());
}

#[test]
fn commands_become_requests() {
    let mut storage: ListenerStorage<&str, &str, &str, u8> = ListenerStorage::new();
    assert!(handle_command(PipewireCommand::SetDefaultSink("x".to_string()), &storage).is_none());
    assert!(handle_command(PipewireCommand::MuteNode(57, true), &storage).is_none());
    storage.set_metadata("metadata", 0);
    storage.add_node(57, "node", 1, 2);
    storage.add_device(44, "device", 3);
    match handle_command(PipewireCommand::SetDefaultSink("{\"name\":\"alsa_output\"}".to_string()), &storage) {
        Some(PipewireRequest::SetMetadataProperty { key, type_, value }) => {
            assert_eq!((key, type_, value.as_str()), ("default.audio.sink", "Spa:String:JSON", "{\"name\":\"alsa_output\"}"));
        }
        _ => panic!("expected a metadata request"),
    }
    let half = 0.5f32.to_bits();
    match handle_command(PipewireCommand::SetNodeVolume(57, vec![half, half, half]), &storage) {
        Some(PipewireRequest::SetNodeParam { node, param }) => {
            assert_eq!(node, 57);
            assert_eq!(param.properties.len(), 1);
            assert!(matches!(&param.properties[0].value, PodValue::FloatArray(v) if v.len() == 2));
        }
        _ => panic!("expected a node request"),
    }
    assert!(handle_command(PipewireCommand::SetNodeVolume(58, vec![half, half]), &storage).is_none());
    match handle_command(PipewireCommand::SetDeviceMute(44, 1, 4, true), &storage) {
        Some(PipewireRequest::SetDeviceRoute { device, param }) => {
            assert_eq!(device, 44);
            assert_eq!(param.properties.len(), 4);
        }
        _ => panic!("expected a route request"),
    }
    assert!(matches!(handle_command(PipewireCommand::SetDeviceProfile(44, 2), &storage), Some(PipewireRequest::SetDeviceProfile { device: 44, .. })));
    assert!(handle_command(PipewireCommand::SetDeviceRoute(45, 1, 1), &storage).is_none());
    assert_eq!(storage.node(57), Some(&"node"));
    assert!(storage.device(45).is_none());
    assert_eq!(storage.metadata(), Some(&"metadata"));
}

#[test]
fn info_and_route_checks() {
    let good = props(&[("object.id", "57"), ("device.id", "44"), ("client.id", "+31")]);
    let bad_device = props(&[("object.id", "57"), ("device.id", "forty")]);
    let no_object = props(&[("device.id", "forty"), ("client.id", "x")]);
    assert!(number_prop_parses(&good, "object.id"));
    assert!(number_prop_parses(&good, "absent"));
    assert!(!number_prop_parses(&bad_device, "device.id"));
    assert!(node_info_ok(Some(&good)));
    assert!(!node_info_ok(Some(&bad_device)));
    assert!(node_info_ok(Some(&no_object)));
    assert!(node_info_ok(None));
    assert!(device_info_ok(Some(&bad_device)));
    assert!(!device_info_ok(Some(&props(&[("object.id", "57"), ("client.id", "-1")]))));

    let with_volumes = vec![prop(PARAM_ROUTE_PROPS, PodValue::Object(object(vec![prop(PROP_CHANNEL_VOLUMES, PodValue::FloatArray(vec![0]))])))];
    let without_volumes = vec![
        prop(PARAM_ROUTE_INDEX, PodValue::Int(1)),
        prop(PARAM_ROUTE_PROPS, PodValue::Object(object(vec![prop(PROP_CHANNEL_VOLUMES, PodValue::FloatArray(vec![]))]))),
    ];
    assert!(route_param_valid(&with_volumes));
    assert!(!route_param_valid(&without_volumes));
    assert!(route_param_valid(&vec![]));
}

#[test]
fn bound_objects_are_addressed() {
    let mut storage: ListenerStorage<u8, u8, u8, u8> = ListenerStorage::new();
    assert!(handle_command(PipewireCommand::MuteNode(7, true), &storage).is_none());
    assert!(handle_command(PipewireCommand::SetDeviceProfile(9, 1), &storage).is_none());
    assert!(handle_command(PipewireCommand::SetDefaultSink("s".to_string()), &storage).is_none());
    storage.add_node(7, 0, 1, 2);
    assert!(handle_command(PipewireCommand::MuteNode(7, true), &storage).is_some());
    assert!(handle_command(PipewireCommand::MuteNode(8, true), &storage).is_none());
    storage.add_device(9, 0, 3);
    assert!(handle_command(PipewireCommand::SetDeviceProfile(9, 1), &storage).is_some());
    assert!(handle_command(PipewireCommand::MuteNode(7, true), &storage).is_some());
    storage.set_metadata(0, 4);
    assert!(handle_command(PipewireCommand::SetDefaultSink("s".to_string()), &storage).is_some());
}
