//! Reading what PipeWire reports about a node.

use vstd::prelude::*;
use crate::pw_events::{PwNode, PwNodeProps, PipewireEvent};
use crate::pw_pod::{PodValue, PodProperty, PodObject, PROP_CHANNEL_VOLUMES, PROP_MUTE, prop_get,
    text_prop, number_prop, number_prop_ok, get_prop, get_text_prop, get_number_prop, number_prop_parses};

verus! {

/// The kinds of parameter that a node or device reports.
#[derive(PartialEq, Eq, Structural)]
pub enum ParamKind {
    Props,
    EnumProfile,
    EnumRoute,
    Profile,
    Route,
    Other,
}

/// The numeric properties of a node info parse where they matter: when the info has an
/// object id, that id, the device id and the client id are absent or parse as `u32`.
pub open spec fn node_info_parses(props: Seq<(String, String)>) -> bool {
    prop_get(props, "object.id"@) is Some ==> {
        &&& number_prop_ok(props, "object.id"@)
        &&& number_prop_ok(props, "device.id"@)
        &&& number_prop_ok(props, "client.id"@)
    }
}

/// Whether a node info's numeric properties parse where `extract_info` reads them.
pub fn node_info_ok(props: Option<&Vec<(String, String)>>) -> (r: bool)
    ensures
        r == (props matches Some(p) ==> node_info_parses(p@)),
{
    match props {
        None => true,
        Some(p) => {
            get_prop(p, "object.id").is_none() || (number_prop_parses(p, "object.id") && number_prop_parses(
                p,
                "device.id",
            ) && number_prop_parses(p, "client.id"))
        },
    }
}

/// Reads a node from the property dictionary of its info; `None` when the info has no
/// dictionary or the dictionary has no `object.id`.
pub fn extract_info(props: Option<&Vec<(String, String)>>) -> (r: Option<PwNode>)
    requires
        props matches Some(p) ==> node_info_parses(p@),
    ensures
        match props {
            None => r is None,
            Some(p) => if prop_get(p@, "object.id"@) is None {
                r is None
            } else {
                r matches Some(node) && {
                    &&& node.id == number_prop(p@, "object.id"@)
                    &&& node.name@ == text_prop(p@, "node.name"@)
                    &&& node.nick@ == text_prop(p@, "node.nick"@)
                    &&& node.class@ == text_prop(p@, "media.class"@)
                    &&& node.description@ == text_prop(p@, "node.description"@)
                    &&& node.card_name@ == text_prop(p@, "alsa.card_name"@)
                    &&& node.mixer_name@ == text_prop(p@, "alsa.mixer_name"@)
                    &&& node.alsa_name@ == text_prop(p@, "alsa.name"@)
                    &&& node.icon_name@ == text_prop(p@, "device.icon-name"@)
                    &&& node.device_id == number_prop(p@, "device.id"@)
                    &&& node.client_id == number_prop(p@, "client.id"@)
                }
            },
        },
{
    match props {
        None => None,
        Some(props) => {
            if get_prop(props, "object.id").is_none() {
                return None;
            }
            Some(PwNode {
                id: get_number_prop(props, "object.id"),
                name: get_text_prop(props, "node.name"),
                nick: get_text_prop(props, "node.nick"),
                class: get_text_prop(props, "media.class"),
                description: get_text_prop(props, "node.description"),
                card_name: get_text_prop(props, "alsa.card_name"),
                mixer_name: get_text_prop(props, "alsa.mixer_name"),
                alsa_name: get_text_prop(props, "alsa.name"),
                icon_name: get_text_prop(props, "device.icon-name"),
                device_id: get_number_prop(props, "device.id"),
                client_id: get_number_prop(props, "client.id"),
            })
        },
    }
}

/// The (id, volume, muted) that reading one property of a node's `Props` leaves: channel
/// volumes with at least two channels set the id and the first two volumes, a boolean
/// mute sets the mute state, anything else changes nothing.
pub open spec fn apply_node_prop(st: (u32, (u32, u32), bool), prop: PodProperty, id: u32) -> (u32, (u32, u32), bool) {
    if prop.key == PROP_CHANNEL_VOLUMES {
        match prop.value {
            PodValue::FloatArray(v) => if v@.len() >= 2 {
                (id, (v@[0], v@[1]), st.2)
            } else {
                st
            },
            _ => st,
        }
    } else if prop.key == PROP_MUTE {
        match prop.value {
            PodValue::Bool(b) => (st.0, st.1, b),
            _ => st,
        }
    } else {
        st
    }
}

/// The (id, volume, muted) after reading `props` in order, starting from nothing set.
pub open spec fn node_props_fold(props: Seq<PodProperty>, id: u32) -> (u32, (u32, u32), bool)
    decreases props.len(),
{
    if props.len() == 0 {
        (0, (0, 0), false)
    } else {
        apply_node_prop(node_props_fold(props.drop_last(), id), props.last(), id)
    }
}

/// Reads the volume and mute state of node `id` from its `Props` parameter; `None` when
/// there is no parameter or it carries no channel volumes for a nonzero id.
pub fn extract_props(id: u32, param: Option<&PodObject>) -> (r: Option<PwNodeProps>)
    ensures
        r == extract_props_spec(id, param),
{
    match param {
        None => None,
        Some(param) => {
            let mut props = PwNodeProps { id: 0, volume: (0, 0), muted: false };
            let n = param.properties.len();
            let mut i: usize = 0;
            while i < n
                invariant
                    n == param.properties@.len(),
                    i <= n,
                    (props.id, props.volume, props.muted) == node_props_fold(param.properties@.take(i as int), id),
                decreases n - i,
            {
                let ghost prefix = param.properties@.take(i + 1);
                assert(prefix.drop_last() =~= param.properties@.take(i as int));
                assert(prefix.last() == param.properties@[i as int]);
                let prop = &param.properties[i];
                if prop.key == PROP_CHANNEL_VOLUMES {
                    match &prop.value {
                        PodValue::FloatArray(value) => {
                            if value.len() >= 2 {
                                props.id = id;
                                props.volume = (value[0], value[1]);
                            }
                        },
                        _ => {},
                    }
                } else if prop.key == PROP_MUTE {
                    match &prop.value {
                        PodValue::Bool(value) => {
                            props.muted = *value;
                        },
                        _ => {},
                    }
                }
                i = i + 1;
            }
            assert(param.properties@.take(n as int) =~= param.properties@);
            if props.id > 0 {
                Some(props)
            } else {
                None
            }
        },
    }
}

/// The event a parameter report of node `id` makes: `Props` reports become `NodeProps`
/// when they read as such; other parameters make none.
pub fn node_param_event(id: u32, kind: ParamKind, param: Option<&PodObject>) -> (r: Option<PipewireEvent>)
    ensures
        kind != ParamKind::Props ==> r is None,
        kind == ParamKind::Props ==> match extract_props_spec(id, param) {
            Some(p) => r == Some(PipewireEvent::NodeProps(p)),
            None => r is None,
        },
{
    if kind == ParamKind::Props {
        match extract_props(id, param) {
            Some(props) => Some(PipewireEvent::NodeProps(props)),
            None => None,
        }
    } else {
        None
    }
}

/// What `extract_props` returns.
pub open spec fn extract_props_spec(id: u32, param: Option<&PodObject>) -> Option<PwNodeProps> {
    match param {
        None => None,
        Some(p) => {
            let st = node_props_fold(p.properties@, id);
            if st.0 > 0 {
                Some(PwNodeProps { id: st.0, volume: st.1, muted: st.2 })
            } else {
                None
            }
        },
    }
}

/// Properties from position `k` on change neither the volume nor the mute state when
/// their keys are not the respective property's key.
proof fn lemma_node_fold_frozen(props: Seq<PodProperty>, id: u32, k: int)
    requires
        0 <= k <= props.len(),
    ensures
        (forall|j: int| k <= j < props.len() ==> (#[trigger] props[j]).key != PROP_CHANNEL_VOLUMES) ==> {
            &&& node_props_fold(props, id).0 == node_props_fold(props.take(k), id).0
            &&& node_props_fold(props, id).1 == node_props_fold(props.take(k), id).1
        },
        (forall|j: int| k <= j < props.len() ==> (#[trigger] props[j]).key != PROP_MUTE) ==> node_props_fold(
            props,
            id,
        ).2 == node_props_fold(props.take(k), id).2,
    decreases props.len(),
{
    if props.len() == k {
        assert(props.take(k) =~= props);
    } else {
        let n = props.len() - 1;
        let front = props.drop_last();
        assert(front.take(k) =~= props.take(k));
        assert forall|j: int| k <= j < front.len() implies front[j] == props[j] by {}
        lemma_node_fold_frozen(front, id, k);
        assert(props.last() == props[n]);
    }
}

/// The volume and mute state of a node come from its own properties: when the last
/// channel-volume property is an array `v` of at least two channels and the node id is
/// nonzero, the node is reported with that id and volume `(v[0], v[1])`; when the last
/// mute property is the boolean `b`, a reported node is muted exactly when `b` holds;
/// without any mute property it is not muted; and without any channel-volume array of
/// two or more channels nothing is reported.
pub proof fn lemma_node_props_read(id: u32, param: PodObject, i: int, m: int)
    ensures
        0 <= i < param.properties@.len() && param.properties@[i].key == PROP_CHANNEL_VOLUMES
            && param.properties@[i].value is FloatArray && param.properties@[i].value->FloatArray_0@.len() >= 2
            && id != 0 && (forall|j: int|
            i < j < param.properties@.len() ==> (#[trigger] param.properties@[j]).key != PROP_CHANNEL_VOLUMES) ==> {
            let v = param.properties@[i].value->FloatArray_0@;
            extract_props_spec(id, Some(&param)) matches Some(p) && p.id == id && p.volume == (v[0], v[1])
        },
        0 <= m < param.properties@.len() && param.properties@[m].key == PROP_MUTE && param.properties@[m].value is Bool
            && (forall|j: int| m < j < param.properties@.len() ==> (#[trigger] param.properties@[j]).key != PROP_MUTE)
            ==> (extract_props_spec(id, Some(&param)) matches Some(p) ==> p.muted == param.properties@[m].value->Bool_0),
        (forall|j: int| 0 <= j < param.properties@.len() ==> (#[trigger] param.properties@[j]).key != PROP_MUTE) ==> (
        extract_props_spec(id, Some(&param)) matches Some(p) ==> !p.muted),
        (forall|j: int|
            0 <= j < param.properties@.len() && (#[trigger] param.properties@[j]).key == PROP_CHANNEL_VOLUMES
                ==> !(param.properties@[j].value is FloatArray && param.properties@[j].value->FloatArray_0@.len()
                >= 2)) ==> extract_props_spec(id, Some(&param)) is None,
{
    let props = param.properties@;
    if 0 <= i < props.len() {
        lemma_node_fold_frozen(props, id, i + 1);
        assert(props.take(i + 1).drop_last() =~= props.take(i));
        assert(props.take(i + 1).last() == props[i]);
    }
    if 0 <= m < props.len() {
        lemma_node_fold_frozen(props, id, m + 1);
        assert(props.take(m + 1).drop_last() =~= props.take(m));
        assert(props.take(m + 1).last() == props[m]);
    }
    lemma_node_fold_frozen(props, id, 0);
    assert(props.take(0) =~= Seq::<PodProperty>::empty());
    lemma_node_fold_no_volumes(props, id);
}

/// Without a channel-volume array of two or more channels the node id stays 0.
proof fn lemma_node_fold_no_volumes(props: Seq<PodProperty>, id: u32)
    ensures
        (forall|j: int|
            0 <= j < props.len() && (#[trigger] props[j]).key == PROP_CHANNEL_VOLUMES ==> !(props[j].value is FloatArray
                && props[j].value->FloatArray_0@.len() >= 2)) ==> node_props_fold(props, id).0 == 0,
    decreases props.len(),
{
    if props.len() > 0 {
        let front = props.drop_last();
        assert forall|j: int| 0 <= j < front.len() implies front[j] == props[j] by {}
        lemma_node_fold_no_volumes(front, id);
        assert(props.last() == props[props.len() - 1]);
    }
}

} // verus!
