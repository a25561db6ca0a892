//! Reading what PipeWire reports about a device: its info, profiles and routes.

use vstd::prelude::*;
use crate::pw_events::{PwDevice, PwMediaClass, PwDeviceProfile, PwDeviceRoute, PwDeviceRouteDirection,
    PipewireEvent};
use crate::pw_node::ParamKind;
use crate::pw_pod::{PodValue, PodProperty, PodObject, prop_get, text_prop, number_prop, number_prop_ok,
    get_prop, get_text_prop, get_number_prop, number_prop_parses, PARAM_AVAILABILITY_NO, PARAM_PROFILE_INDEX,
    PARAM_PROFILE_NAME, PARAM_PROFILE_DESCRIPTION, PARAM_PROFILE_PRIORITY, PARAM_PROFILE_AVAILABLE,
    PARAM_PROFILE_CLASSES, PARAM_ROUTE_INDEX, PARAM_ROUTE_DIRECTION, PARAM_ROUTE_NAME,
    PARAM_ROUTE_DESCRIPTION, PARAM_ROUTE_PRIORITY, PARAM_ROUTE_AVAILABLE, PARAM_ROUTE_PROFILES,
    PARAM_ROUTE_PROPS, PARAM_ROUTE_DEVICES, PROP_CHANNEL_VOLUMES, PROP_MUTE};

verus! {

/// The numeric properties of a device info parse where they matter: when the info has
/// an object id, that id and the client id are absent or parse as `u32`.
pub open spec fn device_info_parses(props: Seq<(String, String)>) -> bool {
    prop_get(props, "object.id"@) is Some ==> {
        &&& number_prop_ok(props, "object.id"@)
        &&& number_prop_ok(props, "client.id"@)
    }
}

/// Whether a device info's numeric properties parse where `extract_info` reads them.
pub fn device_info_ok(props: Option<&Vec<(String, String)>>) -> (r: bool)
    ensures
        r == (props matches Some(p) ==> device_info_parses(p@)),
{
    match props {
        None => true,
        Some(p) => {
            get_prop(p, "object.id").is_none() || (number_prop_parses(p, "object.id") && number_prop_parses(
                p,
                "client.id",
            ))
        },
    }
}

/// Reads a device from the property dictionary of its info; `None` when the info has no
/// dictionary or the dictionary has no `object.id`.
pub fn extract_info(props: Option<&Vec<(String, String)>>) -> (r: Option<PwDevice>)
    requires
        props matches Some(p) ==> device_info_parses(p@),
    ensures
        match props {
            None => r is None,
            Some(p) => if prop_get(p@, "object.id"@) is None {
                r is None
            } else {
                r matches Some(d) && {
                    &&& d.id == number_prop(p@, "object.id"@)
                    &&& d.name@ == text_prop(p@, "device.name"@)
                    &&& d.nick@ == text_prop(p@, "device.nick"@)
                    &&& d.description@ == text_prop(p@, "device.description"@)
                    &&& d.alsa_name@ == Seq::<char>::empty()
                    &&& d.card_name@ == text_prop(p@, "alsa.card_name"@)
                    &&& d.mixer_name@ == text_prop(p@, "alsa.mixer_name"@)
                    &&& d.icon_name@ == text_prop(p@, "device.icon-name"@)
                    &&& d.client_id == number_prop(p@, "client.id"@)
                }
            },
        },
{
    match props {
        None => None,
        Some(props) => {
            if get_prop(props, "object.id").is_none() {
                return None;
            }
            Some(PwDevice {
                id: get_number_prop(props, "object.id"),
                name: get_text_prop(props, "device.name"),
                nick: get_text_prop(props, "device.nick"),
                description: get_text_prop(props, "device.description"),
                alsa_name: String::new(),
                card_name: get_text_prop(props, "alsa.card_name"),
                mixer_name: get_text_prop(props, "alsa.mixer_name"),
                icon_name: get_text_prop(props, "device.icon-name"),
                client_id: get_number_prop(props, "client.id"),
            })
        },
    }
}

/// A media class as (name, devices).
pub open spec fn class_view(c: PwMediaClass) -> (Seq<char>, Seq<i32>) {
    (c.name@, c.devices@)
}

/// The class an entry of a profile's class list describes: a structure of exactly four
/// fields whose first is the class name and whose last is the array of devices.
pub open spec fn media_class_of(v: PodValue) -> Option<(Seq<char>, Seq<i32>)> {
    match v {
        PodValue::Struct(fields) => if fields@.len() == 4 && fields@[0] is String && fields@[3] is IntArray {
            Some((fields@[0]->String_0@, fields@[3]->IntArray_0@))
        } else {
            None
        },
        _ => None,
    }
}

/// The classes that the entries of `items` describe, in order.
pub open spec fn media_classes_from(items: Seq<PodValue>) -> Seq<(Seq<char>, Seq<i32>)>
    decreases items.len(),
{
    if items.len() == 0 {
        Seq::empty()
    } else {
        let rest = media_classes_from(items.drop_last());
        match media_class_of(items.last()) {
            Some(c) => rest.push(c),
            None => rest,
        }
    }
}

/// Where the class entries of a class list start: after a leading count, if there is one.
pub open spec fn classes_start(items: Seq<PodValue>) -> int {
    if items.len() > 0 && items[0] is Int { 1 } else { 0 }
}

/// The classes a profile's class list describes; none unless it is a structure.
pub open spec fn media_classes_spec(v: PodValue) -> Seq<(Seq<char>, Seq<i32>)> {
    match v {
        PodValue::Struct(items) => media_classes_from(items@.skip(classes_start(items@))),
        _ => Seq::empty(),
    }
}

fn clone_ints(v: &Vec<i32>) -> (r: Vec<i32>)
    ensures
        r@ == v@,
{
    let mut r: Vec<i32> = Vec::new();
    let n = v.len();
    let mut i: usize = 0;
    while i < n
        invariant
            n == v@.len(),
            i <= n,
            r@ =~= v@.take(i as int),
        decreases n - i,
    {
        r.push(v[i]);
        i = i + 1;
    }
    assert(v@.take(n as int) =~= v@);
    r
}

fn media_class(v: &PodValue) -> (r: Option<PwMediaClass>)
    ensures
        match r {
            Some(c) => media_class_of(*v) == Some(class_view(c)),
            None => media_class_of(*v) is None,
        },
{
    match v {
        PodValue::Struct(fields) => {
            if fields.len() == 4 {
                match (&fields[0], &fields[3]) {
                    (PodValue::String(name), PodValue::IntArray(devices)) => {
                        return Some(PwMediaClass { name: name.clone(), devices: clone_ints(devices) });
                    },
                    _ => {},
                }
            }
            None
        },
        _ => None,
    }
}

/// Reads the class list of a profile: a structure whose entries (after a leading count,
/// if any) each describe a class; entries of another shape are skipped.
pub fn parse_media_class(prop: &PodProperty) -> (r: Vec<PwMediaClass>)
    ensures
        r@.map_values(|c: PwMediaClass| class_view(c)) == media_classes_spec(prop.value),
{
    let mut result: Vec<PwMediaClass> = Vec::new();
    match &prop.value {
        PodValue::Struct(items) => {
            let n = items.len();
            let start: usize = if n > 0 && matches!(items[0], PodValue::Int(_)) { 1 } else { 0 };
            assert(start == classes_start(items@));
            let ghost tail = items@.skip(start as int);
            let mut i: usize = start;
            while i < n
                invariant
                    n == items@.len(),
                    start <= i <= n,
                    tail == items@.skip(start as int),
                    result@.map_values(|c: PwMediaClass| class_view(c)) == media_classes_from(tail.take(i - start)),
                decreases n - i,
            {
                let ghost prefix = tail.take(i - start + 1);
                assert(prefix.drop_last() =~= tail.take(i - start));
                assert(prefix.last() == items@[i as int]);
                match media_class(&items[i]) {
                    Some(c) => {
                        result.push(c);
                        assert(result@.map_values(|c: PwMediaClass| class_view(c)) =~= media_classes_from(prefix));
                    },
                    None => {},
                }
                i = i + 1;
            }
            assert(tail.take(n - start) =~= tail);
            result
        },
        _ => {
            assert(result@.map_values(|c: PwMediaClass| class_view(c)) =~= Seq::<(Seq<char>, Seq<i32>)>::empty());
            result
        },
    }
}

/// What a profile holds.
pub struct ProfileView {
    pub device_id: u32,
    pub index: i32,
    pub name: Seq<char>,
    pub description: Seq<char>,
    pub priority: i32,
    pub available: bool,
    pub classes: Seq<(Seq<char>, Seq<i32>)>,
}

impl View for PwDeviceProfile {
    type V = ProfileView;

    open spec fn view(&self) -> ProfileView {
        ProfileView {
            device_id: self.device_id,
            index: self.index,
            name: self.name@,
            description: self.description@,
            priority: self.priority,
            available: self.available,
            classes: self.classes@.map_values(|c: PwMediaClass| class_view(c)),
        }
    }
}

/// The profile after reading one of its properties; a property of an unexpected type
/// changes nothing.
pub open spec fn apply_profile_prop(p: ProfileView, prop: PodProperty) -> ProfileView {
    if prop.key == PARAM_PROFILE_INDEX {
        match prop.value {
            PodValue::Int(v) => ProfileView { index: v, ..p },
            _ => p,
        }
    } else if prop.key == PARAM_PROFILE_DESCRIPTION {
        match prop.value {
            PodValue::String(s) => ProfileView { description: s@, ..p },
            _ => p,
        }
    } else if prop.key == PARAM_PROFILE_AVAILABLE {
        match prop.value {
            PodValue::Id(v) => ProfileView { available: v != PARAM_AVAILABILITY_NO, ..p },
            _ => p,
        }
    } else if prop.key == PARAM_PROFILE_CLASSES {
        ProfileView { classes: media_classes_spec(prop.value), ..p }
    } else if prop.key == PARAM_PROFILE_NAME {
        match prop.value {
            PodValue::String(s) => ProfileView { name: s@, ..p },
            _ => p,
        }
    } else if prop.key == PARAM_PROFILE_PRIORITY {
        match prop.value {
            PodValue::Int(v) => ProfileView { priority: v, ..p },
            _ => p,
        }
    } else {
        p
    }
}

/// The profile of device `id` before any property is read.
pub open spec fn empty_profile(id: u32) -> ProfileView {
    ProfileView {
        device_id: id,
        index: 0,
        name: Seq::empty(),
        description: Seq::empty(),
        priority: 0,
        available: false,
        classes: Seq::empty(),
    }
}

/// The profile of device `id` after reading `props` in order.
pub open spec fn profile_fold(props: Seq<PodProperty>, id: u32) -> ProfileView
    decreases props.len(),
{
    if props.len() == 0 {
        empty_profile(id)
    } else {
        apply_profile_prop(profile_fold(props.drop_last(), id), props.last())
    }
}

/// Reads a profile of device `id` from a profile parameter; `None` without a parameter.
pub fn extract_profile(id: u32, param: Option<&PodObject>) -> (r: Option<PwDeviceProfile>)
    ensures
        match param {
            None => r is None,
            Some(p) => r matches Some(profile) && profile@ == profile_fold(p.properties@, id),
        },
{
    match param {
        None => None,
        Some(param) => {
            let mut profile = PwDeviceProfile {
                device_id: id,
                index: 0,
                name: String::new(),
                description: String::new(),
                priority: 0,
                available: false,
                classes: Vec::new(),
            };
            assert(profile.classes@.map_values(|c: PwMediaClass| class_view(c)) =~= Seq::<(Seq<char>, Seq<i32>)>::empty());
            assert(profile@ =~= empty_profile(id));
            let n = param.properties.len();
            let mut i: usize = 0;
            while i < n
                invariant
                    n == param.properties@.len(),
                    i <= n,
                    profile@ == profile_fold(param.properties@.take(i as int), id),
                decreases n - i,
            {
                let ghost prefix = param.properties@.take(i + 1);
                assert(prefix.drop_last() =~= param.properties@.take(i as int));
                assert(prefix.last() == param.properties@[i as int]);
                let ghost before = profile@;
                let prop = &param.properties[i];
                if prop.key == PARAM_PROFILE_INDEX {
                    if let PodValue::Int(v) = &prop.value {
                        profile.index = *v;
                    }
                } else if prop.key == PARAM_PROFILE_DESCRIPTION {
                    if let PodValue::String(v) = &prop.value {
                        profile.description = v.clone();
                    }
                } else if prop.key == PARAM_PROFILE_AVAILABLE {
                    if let PodValue::Id(v) = &prop.value {
                        profile.available = *v != PARAM_AVAILABILITY_NO;
                    }
                } else if prop.key == PARAM_PROFILE_CLASSES {
                    profile.classes = parse_media_class(prop);
                } else if prop.key == PARAM_PROFILE_NAME {
                    if let PodValue::String(v) = &prop.value {
                        profile.name = v.clone();
                    }
                } else if prop.key == PARAM_PROFILE_PRIORITY {
                    if let PodValue::Int(v) = &prop.value {
                        profile.priority = *v;
                    }
                }
                assert(profile@ =~= apply_profile_prop(before, param.properties@[i as int]));
                i = i + 1;
            }
            assert(param.properties@.take(n as int) =~= param.properties@);
            Some(profile)
        },
    }
}

/// What a route holds.
pub struct RouteView {
    pub device_id: u32,
    pub index: i32,
    pub direction: PwDeviceRouteDirection,
    pub name: Seq<char>,
    pub description: Seq<char>,
    pub priority: i32,
    pub available: bool,
    pub volume: (u32, u32),
    pub mute: bool,
    pub profiles: Seq<i32>,
    pub devices: Seq<i32>,
}

impl View for PwDeviceRoute {
    type V = RouteView;

    open spec fn view(&self) -> RouteView {
        RouteView {
            device_id: self.device_id,
            index: self.index,
            direction: self.direction,
            name: self.name@,
            description: self.description@,
            priority: self.priority,
            available: self.available,
            volume: self.volume,
            mute: self.mute,
            profiles: self.profiles@,
            devices: self.devices@,
        }
    }
}

/// Every channel-volume array among `props` has at least one channel.
pub open spec fn channel_volumes_nonempty(props: Seq<PodProperty>) -> bool {
    forall|i: int|
        0 <= i < props.len() && (#[trigger] props[i]).key == PROP_CHANNEL_VOLUMES && props[i].value is FloatArray
            ==> props[i].value->FloatArray_0@.len() > 0
}

/// Every property object that a route parameter carries has non-empty channel volumes.
pub open spec fn route_param_ok(props: Seq<PodProperty>) -> bool {
    forall|i: int|
        0 <= i < props.len() && (#[trigger] props[i]).key == PARAM_ROUTE_PROPS && props[i].value is Object
            ==> channel_volumes_nonempty(props[i].value->Object_0.properties@)
}

fn channel_volumes_present(props: &Vec<PodProperty>) -> (r: bool)
    ensures
        r == channel_volumes_nonempty(props@),
{
    let n = props.len();
    let mut i: usize = 0;
    while i < n
        invariant
            n == props@.len(),
            i <= n,
            forall|j: int|
                0 <= j < i && (#[trigger] props@[j]).key == PROP_CHANNEL_VOLUMES && props@[j].value is FloatArray
                    ==> props@[j].value->FloatArray_0@.len() > 0,
        decreases n - i,
    {
        if props[i].key == PROP_CHANNEL_VOLUMES {
            if let PodValue::FloatArray(v) = &props[i].value {
                if v.len() == 0 {
                    assert(!channel_volumes_nonempty(props@)) by {
                        assert(props@[i as int].key == PROP_CHANNEL_VOLUMES);
                    }
                    return false;
                }
            }
        }
        i = i + 1;
    }
    true
}

/// Whether a route parameter can be read: every property object it carries has
/// non-empty channel volumes.
pub fn route_param_valid(props: &Vec<PodProperty>) -> (r: bool)
    ensures
        r == route_param_ok(props@),
{
    let n = props.len();
    let mut i: usize = 0;
    while i < n
        invariant
            n == props@.len(),
            i <= n,
            forall|j: int|
                0 <= j < i && (#[trigger] props@[j]).key == PARAM_ROUTE_PROPS && props@[j].value is Object
                    ==> channel_volumes_nonempty(props@[j].value->Object_0.properties@),
        decreases n - i,
    {
        if props[i].key == PARAM_ROUTE_PROPS {
            if let PodValue::Object(o) = &props[i].value {
                if !channel_volumes_present(&o.properties) {
                    assert(!route_param_ok(props@)) by {
                        assert(props@[i as int].key == PARAM_ROUTE_PROPS);
                    }
                    return false;
                }
            }
        }
        i = i + 1;
    }
    true
}

/// The route after reading one property of its property object: two channel volumes
/// give (left, right), any other count gives the first volume for both; a boolean mute
/// sets the mute state.
pub open spec fn apply_route_inner(r: RouteView, prop: PodProperty) -> RouteView {
    if prop.key == PROP_CHANNEL_VOLUMES {
        match prop.value {
            PodValue::FloatArray(v) => if v@.len() == 2 {
                RouteView { volume: (v@[0], v@[1]), ..r }
            } else {
                RouteView { volume: (v@[0], v@[0]), ..r }
            },
            _ => r,
        }
    } else if prop.key == PROP_MUTE {
        match prop.value {
            PodValue::Bool(b) => RouteView { mute: b, ..r },
            _ => r,
        }
    } else {
        r
    }
}

/// The route after reading the properties of its property object in order.
pub open spec fn route_inner_fold(props: Seq<PodProperty>, r: RouteView) -> RouteView
    decreases props.len(),
{
    if props.len() == 0 {
        r
    } else {
        apply_route_inner(route_inner_fold(props.drop_last(), r), props.last())
    }
}

/// The route after reading one of its properties; a property of an unexpected type
/// changes nothing.
pub open spec fn apply_route_prop(r: RouteView, prop: PodProperty) -> RouteView {
    if prop.key == PARAM_ROUTE_INDEX {
        match prop.value {
            PodValue::Int(v) => RouteView { index: v, ..r },
            _ => r,
        }
    } else if prop.key == PARAM_ROUTE_DIRECTION {
        match prop.value {
            PodValue::Id(v) => RouteView {
                direction: if v == 0 { PwDeviceRouteDirection::Input } else { PwDeviceRouteDirection::Output },
                ..r
            },
            _ => r,
        }
    } else if prop.key == PARAM_ROUTE_NAME {
        match prop.value {
            PodValue::String(s) => RouteView { name: s@, ..r },
            _ => r,
        }
    } else if prop.key == PARAM_ROUTE_DESCRIPTION {
        match prop.value {
            PodValue::String(s) => RouteView { description: s@, ..r },
            _ => r,
        }
    } else if prop.key == PARAM_ROUTE_PRIORITY {
        match prop.value {
            PodValue::Int(v) => RouteView { priority: v, ..r },
            _ => r,
        }
    } else if prop.key == PARAM_ROUTE_AVAILABLE {
        match prop.value {
            PodValue::Id(v) => RouteView { available: v != PARAM_AVAILABILITY_NO, ..r },
            _ => r,
        }
    } else if prop.key == PARAM_ROUTE_PROFILES {
        match prop.value {
            PodValue::IntArray(v) => RouteView { profiles: v@, ..r },
            _ => r,
        }
    } else if prop.key == PARAM_ROUTE_DEVICES {
        match prop.value {
            PodValue::IntArray(v) => RouteView { devices: v@, ..r },
            _ => r,
        }
    } else if prop.key == PARAM_ROUTE_PROPS {
        match prop.value {
            PodValue::Object(o) => route_inner_fold(o.properties@, r),
            _ => r,
        }
    } else {
        r
    }
}

/// The route of device `id` before any property is read.
pub open spec fn empty_route(id: u32) -> RouteView {
    RouteView {
        device_id: id,
        index: 0,
        direction: PwDeviceRouteDirection::Unknown,
        name: Seq::empty(),
        description: Seq::empty(),
        priority: 0,
        available: false,
        volume: (0, 0),
        mute: false,
        profiles: Seq::empty(),
        devices: Seq::empty(),
    }
}

/// The route of device `id` after reading `props` in order.
pub open spec fn route_fold(props: Seq<PodProperty>, id: u32) -> RouteView
    decreases props.len(),
{
    if props.len() == 0 {
        empty_route(id)
    } else {
        apply_route_prop(route_fold(props.drop_last(), id), props.last())
    }
}

fn apply_route_props(route: &mut PwDeviceRoute, inner: &PodObject)
    requires
        channel_volumes_nonempty(inner.properties@),
    ensures
        final(route)@ == route_inner_fold(inner.properties@, old(route)@),
{
    let ghost start = route@;
    let n = inner.properties.len();
    let mut i: usize = 0;
    while i < n
        invariant
            n == inner.properties@.len(),
            i <= n,
            channel_volumes_nonempty(inner.properties@),
            route@ == route_inner_fold(inner.properties@.take(i as int), start),
        decreases n - i,
    {
        let ghost prefix = inner.properties@.take(i + 1);
        assert(prefix.drop_last() =~= inner.properties@.take(i as int));
        assert(prefix.last() == inner.properties@[i as int]);
        let ghost before = route@;
        let prop = &inner.properties[i];
        if prop.key == PROP_CHANNEL_VOLUMES {
            if let PodValue::FloatArray(value) = &prop.value {
                assert(value@.len() > 0);
                if value.len() == 2 {
                    route.volume = (value[0], value[1]);
                } else {
                    let volume = value[0];
                    route.volume = (volume, volume);
                }
            }
        } else if prop.key == PROP_MUTE {
            if let PodValue::Bool(value) = &prop.value {
                route.mute = *value;
            }
        }
        assert(route@ =~= apply_route_inner(before, inner.properties@[i as int]));
        i = i + 1;
    }
    assert(inner.properties@.take(n as int) =~= inner.properties@);
}

/// Reads a route of device `id` from a route parameter; `None` without a parameter.
pub fn extract_route(id: u32, param: Option<&PodObject>) -> (r: Option<PwDeviceRoute>)
    requires
        param matches Some(p) ==> route_param_ok(p.properties@),
    ensures
        match param {
            None => r is None,
            Some(p) => r matches Some(route) && route@ == route_fold(p.properties@, id),
        },
{
    match param {
        None => None,
        Some(param) => {
            let mut route = PwDeviceRoute {
                device_id: id,
                index: 0,
                direction: PwDeviceRouteDirection::Unknown,
                name: String::new(),
                description: String::new(),
                priority: 0,
                available: false,
                volume: (0, 0),
                mute: false,
                profiles: Vec::new(),
                devices: Vec::new(),
            };
            assert(route@ =~= empty_route(id));
            let n = param.properties.len();
            let mut i: usize = 0;
            while i < n
                invariant
                    n == param.properties@.len(),
                    i <= n,
                    route_param_ok(param.properties@),
                    route@ == route_fold(param.properties@.take(i as int), id),
                decreases n - i,
            {
                let ghost prefix = param.properties@.take(i + 1);
                assert(prefix.drop_last() =~= param.properties@.take(i as int));
                assert(prefix.last() == param.properties@[i as int]);
                let ghost before = route@;
                let prop = &param.properties[i];
                if prop.key == PARAM_ROUTE_INDEX {
                    if let PodValue::Int(v) = &prop.value {
                        route.index = *v;
                    }
                } else if prop.key == PARAM_ROUTE_DIRECTION {
                    if let PodValue::Id(v) = &prop.value {
                        route.direction = if *v == 0 {
                            PwDeviceRouteDirection::Input
                        } else {
                            PwDeviceRouteDirection::Output
                        };
                    }
                } else if prop.key == PARAM_ROUTE_NAME {
                    if let PodValue::String(v) = &prop.value {
                        route.name = v.clone();
                    }
                } else if prop.key == PARAM_ROUTE_DESCRIPTION {
                    if let PodValue::String(v) = &prop.value {
                        route.description = v.clone();
                    }
                } else if prop.key == PARAM_ROUTE_PRIORITY {
                    if let PodValue::Int(v) = &prop.value {
                        route.priority = *v;
                    }
                } else if prop.key == PARAM_ROUTE_AVAILABLE {
                    if let PodValue::Id(v) = &prop.value {
                        route.available = *v != PARAM_AVAILABILITY_NO;
                    }
                } else if prop.key == PARAM_ROUTE_PROFILES {
                    if let PodValue::IntArray(v) = &prop.value {
                        route.profiles = clone_ints(v);
                    }
                } else if prop.key == PARAM_ROUTE_DEVICES {
                    if let PodValue::IntArray(v) = &prop.value {
                        route.devices = clone_ints(v);
                    }
                } else if prop.key == PARAM_ROUTE_PROPS {
                    if let PodValue::Object(o) = &prop.value {
                        apply_route_props(&mut route, o);
                    }
                }
                assert(route@ =~= apply_route_prop(before, param.properties@[i as int]));
                i = i + 1;
            }
            assert(param.properties@.take(n as int) =~= param.properties@);
            Some(route)
        },
    }
}

/// What `extract_profile` returns, by its view.
pub open spec fn profile_result(id: u32, param: Option<&PodObject>) -> Option<ProfileView> {
    match param {
        None => None,
        Some(p) => Some(profile_fold(p.properties@, id)),
    }
}

/// What `extract_route` returns, by its view.
pub open spec fn route_result(id: u32, param: Option<&PodObject>) -> Option<RouteView> {
    match param {
        None => None,
        Some(p) => Some(route_fold(p.properties@, id)),
    }
}

/// The event a parameter report of device `id` makes: enumerated and current profiles
/// and routes become the matching event; other parameters make none.
pub fn device_param_event(id: u32, kind: ParamKind, param: Option<&PodObject>) -> (r: Option<PipewireEvent>)
    requires
        kind == ParamKind::EnumRoute || kind == ParamKind::Route ==> (param matches Some(p) ==> route_param_ok(
            p.properties@,
        )),
    ensures
        match kind {
            ParamKind::EnumProfile => match r {
                Some(PipewireEvent::DeviceEnumProfile(p)) => profile_result(id, param) == Some(p@),
                None => profile_result(id, param) is None,
                _ => false,
            },
            ParamKind::Profile => match r {
                Some(PipewireEvent::DeviceProfile(p)) => profile_result(id, param) == Some(p@),
                None => profile_result(id, param) is None,
                _ => false,
            },
            ParamKind::EnumRoute => match r {
                Some(PipewireEvent::DeviceEnumRoute(rt)) => route_result(id, param) == Some(rt@),
                None => route_result(id, param) is None,
                _ => false,
            },
            ParamKind::Route => match r {
                Some(PipewireEvent::DeviceRoute(rt)) => route_result(id, param) == Some(rt@),
                None => route_result(id, param) is None,
                _ => false,
            },
            _ => r is None,
        },
{
    match kind {
        ParamKind::EnumProfile => match extract_profile(id, param) {
            Some(p) => Some(PipewireEvent::DeviceEnumProfile(p)),
            None => None,
        },
        ParamKind::EnumRoute => match extract_route(id, param) {
            Some(rt) => Some(PipewireEvent::DeviceEnumRoute(rt)),
            None => None,
        },
        ParamKind::Profile => match extract_profile(id, param) {
            Some(p) => Some(PipewireEvent::DeviceProfile(p)),
            None => None,
        },
        ParamKind::Route => match extract_route(id, param) {
            Some(rt) => Some(PipewireEvent::DeviceRoute(rt)),
            None => None,
        },
        _ => None,
    }
}

/// A route field is left alone by every property whose key is not that field's key.
proof fn lemma_route_fold_frozen(props: Seq<PodProperty>, id: u32, k: int)
    requires
        0 <= k <= props.len(),
    ensures
        (forall|j: int| k <= j < props.len() ==> (#[trigger] props[j]).key != PARAM_ROUTE_INDEX) ==> route_fold(props, id).index
            == route_fold(props.take(k), id).index,
        (forall|j: int| k <= j < props.len() ==> (#[trigger] props[j]).key != PARAM_ROUTE_DIRECTION) ==> route_fold(props, id).direction
            == route_fold(props.take(k), id).direction,
        (forall|j: int| k <= j < props.len() ==> (#[trigger] props[j]).key != PARAM_ROUTE_NAME) ==> route_fold(props, id).name
            == route_fold(props.take(k), id).name,
        (forall|j: int| k <= j < props.len() ==> (#[trigger] props[j]).key != PARAM_ROUTE_DESCRIPTION) ==> route_fold(props, id).description
            == route_fold(props.take(k), id).description,
        (forall|j: int| k <= j < props.len() ==> (#[trigger] props[j]).key != PARAM_ROUTE_PRIORITY) ==> route_fold(props, id).priority
            == route_fold(props.take(k), id).priority,
        (forall|j: int| k <= j < props.len() ==> (#[trigger] props[j]).key != PARAM_ROUTE_AVAILABLE) ==> route_fold(props, id).available
            == route_fold(props.take(k), id).available,
        (forall|j: int| k <= j < props.len() ==> (#[trigger] props[j]).key != PARAM_ROUTE_PROFILES) ==> route_fold(props, id).profiles
            == route_fold(props.take(k), id).profiles,
        (forall|j: int| k <= j < props.len() ==> (#[trigger] props[j]).key != PARAM_ROUTE_DEVICES) ==> route_fold(props, id).devices
            == route_fold(props.take(k), id).devices,
        (forall|j: int| k <= j < props.len() ==> (#[trigger] props[j]).key != PARAM_ROUTE_PROPS) ==> route_fold(props, id).volume
            == route_fold(props.take(k), id).volume,
        (forall|j: int| k <= j < props.len() ==> (#[trigger] props[j]).key != PARAM_ROUTE_PROPS) ==> route_fold(props, id).mute
            == route_fold(props.take(k), id).mute,
    decreases props.len(),
{
    if props.len() == k {
        assert(props.take(k) =~= props);
        if k == 0 {
            assert(props =~= Seq::<PodProperty>::empty());
        }
    } else {
        let front = props.drop_last();
        assert(front.take(k) =~= props.take(k));
        assert forall|j: int| k <= j < front.len() implies front[j] == props[j] by {}
        lemma_route_fold_frozen(front, id, k);
        assert(props.last() == props[props.len() - 1]);
        if props.last().value is Object {
            lemma_route_inner_keeps(props.last().value->Object_0.properties@, route_fold(front, id));
        }
    }
}

/// A profile field is left alone by every property whose key is not that field's key.
proof fn lemma_profile_fold_frozen(props: Seq<PodProperty>, id: u32, k: int)
    requires
        0 <= k <= props.len(),
    ensures
        (forall|j: int| k <= j < props.len() ==> (#[trigger] props[j]).key != PARAM_PROFILE_INDEX) ==> profile_fold(props, id).index
            == profile_fold(props.take(k), id).index,
        (forall|j: int| k <= j < props.len() ==> (#[trigger] props[j]).key != PARAM_PROFILE_DESCRIPTION) ==> profile_fold(props, id).description
            == profile_fold(props.take(k), id).description,
        (forall|j: int| k <= j < props.len() ==> (#[trigger] props[j]).key != PARAM_PROFILE_AVAILABLE) ==> profile_fold(props, id).available
            == profile_fold(props.take(k), id).available,
        (forall|j: int| k <= j < props.len() ==> (#[trigger] props[j]).key != PARAM_PROFILE_CLASSES) ==> profile_fold(props, id).classes
            == profile_fold(props.take(k), id).classes,
        (forall|j: int| k <= j < props.len() ==> (#[trigger] props[j]).key != PARAM_PROFILE_NAME) ==> profile_fold(props, id).name
            == profile_fold(props.take(k), id).name,
        (forall|j: int| k <= j < props.len() ==> (#[trigger] props[j]).key != PARAM_PROFILE_PRIORITY) ==> profile_fold(props, id).priority
            == profile_fold(props.take(k), id).priority,
    decreases props.len(),
{
    if props.len() == k {
        assert(props.take(k) =~= props);
        if k == 0 {
            assert(props =~= Seq::<PodProperty>::empty());
        }
    } else {
        let front = props.drop_last();
        assert(front.take(k) =~= props.take(k));
        assert forall|j: int| k <= j < front.len() implies front[j] == props[j] by {}
        lemma_profile_fold_frozen(front, id, k);
        assert(props.last() == props[props.len() - 1]);
    }
}

/// Reading a route's property object changes only its volume and mute state.
proof fn lemma_route_inner_keeps(props: Seq<PodProperty>, r: RouteView)
    ensures
        route_inner_fold(props, r) == (RouteView {
            volume: route_inner_fold(props, r).volume,
            mute: route_inner_fold(props, r).mute,
            ..r
        }),
    decreases props.len(),
{
    if props.len() > 0 {
        lemma_route_inner_keeps(props.drop_last(), r);
    }
}

/// Every route read for device `id` belongs to device `id`.
proof fn lemma_route_device_id(props: Seq<PodProperty>, id: u32)
    ensures
        route_fold(props, id).device_id == id,
    decreases props.len(),
{
    if props.len() > 0 {
        lemma_route_device_id(props.drop_last(), id);
        if props.last().value is Object {
            lemma_route_inner_keeps(props.last().value->Object_0.properties@, route_fold(props.drop_last(), id));
        }
    }
}

/// Every profile read for device `id` belongs to device `id`.
proof fn lemma_profile_device_id(props: Seq<PodProperty>, id: u32)
    ensures
        profile_fold(props, id).device_id == id,
    decreases props.len(),
{
    if props.len() > 0 {
        lemma_profile_device_id(props.drop_last(), id);
    }
}

/// A route is read property by property, the last property of each key deciding its
/// field: the route belongs to device `id`; the last name, description, index, priority,
/// profile list and device list are taken as given; the last direction id is `Input` when
/// it is 0 and `Output` otherwise; the last availability id makes the route available
/// unless it is the "no" id. A field whose key never occurs keeps its empty or zero value
/// (direction `Unknown`, not available).
pub proof fn lemma_route_read(id: u32, param: PodObject, i: int)
    ensures
        route_fold(param.properties@, id).device_id == id,
        ({
            let props = param.properties@;
            let r = route_fold(props, id);
            0 <= i < props.len() && (forall|j: int| i < j < props.len() ==> (#[trigger] props[j]).key != props[i].key)
                ==> {
                &&& props[i].key == PARAM_ROUTE_NAME && props[i].value is String ==> r.name == props[i].value->String_0@
                &&& props[i].key == PARAM_ROUTE_DESCRIPTION && props[i].value is String ==> r.description
                    == props[i].value->String_0@
                &&& props[i].key == PARAM_ROUTE_INDEX && props[i].value is Int ==> r.index == props[i].value->Int_0
                &&& props[i].key == PARAM_ROUTE_PRIORITY && props[i].value is Int ==> r.priority == props[i].value->Int_0
                &&& props[i].key == PARAM_ROUTE_DIRECTION && props[i].value is Id ==> r.direction == if props[i].value->Id_0
                    == 0 {
                    PwDeviceRouteDirection::Input
                } else {
                    PwDeviceRouteDirection::Output
                }
                &&& props[i].key == PARAM_ROUTE_AVAILABLE && props[i].value is Id ==> r.available == (props[i].value->Id_0
                    != PARAM_AVAILABILITY_NO)
                &&& props[i].key == PARAM_ROUTE_PROFILES && props[i].value is IntArray ==> r.profiles
                    == props[i].value->IntArray_0@
                &&& props[i].key == PARAM_ROUTE_DEVICES && props[i].value is IntArray ==> r.devices
                    == props[i].value->IntArray_0@
            }
        }),
        ({
            let props = param.properties@;
            let r = route_fold(props, id);
            &&& (forall|j: int| 0 <= j < props.len() ==> (#[trigger] props[j]).key != PARAM_ROUTE_NAME) ==> r.name
                == Seq::<char>::empty()
            &&& (forall|j: int| 0 <= j < props.len() ==> (#[trigger] props[j]).key != PARAM_ROUTE_DESCRIPTION)
                ==> r.description == Seq::<char>::empty()
            &&& (forall|j: int| 0 <= j < props.len() ==> (#[trigger] props[j]).key != PARAM_ROUTE_INDEX) ==> r.index == 0
            &&& (forall|j: int| 0 <= j < props.len() ==> (#[trigger] props[j]).key != PARAM_ROUTE_DIRECTION)
                ==> r.direction == PwDeviceRouteDirection::Unknown
            &&& (forall|j: int| 0 <= j < props.len() ==> (#[trigger] props[j]).key != PARAM_ROUTE_AVAILABLE)
                ==> !r.available
        }),
{
    let props = param.properties@;
    lemma_route_device_id(props, id);
    lemma_route_fold_frozen(props, id, 0);
    assert(props.take(0) =~= Seq::<PodProperty>::empty());
    if 0 <= i < props.len() {
        lemma_route_fold_frozen(props, id, i + 1);
        assert(props.take(i + 1).drop_last() =~= props.take(i));
        assert(props.take(i + 1).last() == props[i]);
    }
}

/// A profile is read property by property, the last property of each key deciding its
/// field: the profile belongs to device `id`; the last name, description, index and
/// priority are taken as given; the last availability id makes the profile available
/// exactly when it is not the "no" id; the last class list gives the classes. A field
/// whose key never occurs keeps its empty or zero value (not available).
pub proof fn lemma_profile_read(id: u32, param: PodObject, i: int)
    ensures
        profile_fold(param.properties@, id).device_id == id,
        ({
            let props = param.properties@;
            let p = profile_fold(props, id);
            0 <= i < props.len() && (forall|j: int| i < j < props.len() ==> (#[trigger] props[j]).key != props[i].key)
                ==> {
                &&& props[i].key == PARAM_PROFILE_NAME && props[i].value is String ==> p.name == props[i].value->String_0@
                &&& props[i].key == PARAM_PROFILE_DESCRIPTION && props[i].value is String ==> p.description
                    == props[i].value->String_0@
                &&& props[i].key == PARAM_PROFILE_INDEX && props[i].value is Int ==> p.index == props[i].value->Int_0
                &&& props[i].key == PARAM_PROFILE_PRIORITY && props[i].value is Int ==> p.priority == props[i].value->Int_0
                &&& props[i].key == PARAM_PROFILE_AVAILABLE && props[i].value is Id ==> p.available == (
                props[i].value->Id_0 != PARAM_AVAILABILITY_NO)
                &&& props[i].key == PARAM_PROFILE_CLASSES ==> p.classes == media_classes_spec(props[i].value)
            }
        }),
        ({
            let props = param.properties@;
            let p = profile_fold(props, id);
            &&& (forall|j: int| 0 <= j < props.len() ==> (#[trigger] props[j]).key != PARAM_PROFILE_NAME) ==> p.name
                == Seq::<char>::empty()
            &&& (forall|j: int| 0 <= j < props.len() ==> (#[trigger] props[j]).key != PARAM_PROFILE_DESCRIPTION)
                ==> p.description == Seq::<char>::empty()
            &&& (forall|j: int| 0 <= j < props.len() ==> (#[trigger] props[j]).key != PARAM_PROFILE_INDEX) ==> p.index
                == 0
            &&& (forall|j: int| 0 <= j < props.len() ==> (#[trigger] props[j]).key != PARAM_PROFILE_AVAILABLE)
                ==> !p.available
            &&& (forall|j: int| 0 <= j < props.len() ==> (#[trigger] props[j]).key != PARAM_PROFILE_CLASSES)
                ==> p.classes == Seq::<(Seq<char>, Seq<i32>)>::empty()
        }),
{
    let props = param.properties@;
    lemma_profile_device_id(props, id);
    lemma_profile_fold_frozen(props, id, 0);
    assert(props.take(0) =~= Seq::<PodProperty>::empty());
    if 0 <= i < props.len() {
        lemma_profile_fold_frozen(props, id, i + 1);
        assert(props.take(i + 1).drop_last() =~= props.take(i));
        assert(props.take(i + 1).last() == props[i]);
    }
}

} // verus!
