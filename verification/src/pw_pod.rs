//! The part of PipeWire's POD values that the bar reads and writes, and the SPA ids
//! that name their properties.

use vstd::prelude::*;
use crate::text::{str_eq, parse_u32, parse_u32_spec};

verus! {

/// Object type of property objects.
pub const TYPE_OBJECT_PROPS: u32 = 0x40002;
/// Object type of profile parameters.
pub const TYPE_OBJECT_PARAM_PROFILE: u32 = 0x40007;
/// Object type of route parameters.
pub const TYPE_OBJECT_PARAM_ROUTE: u32 = 0x40009;

/// Parameter id of properties.
pub const PARAM_PROPS: u32 = 2;
/// Parameter id of the active profile.
pub const PARAM_PROFILE: u32 = 9;
/// Parameter id of the active route.
pub const PARAM_ROUTE: u32 = 13;

pub const PARAM_PROFILE_INDEX: u32 = 1;
pub const PARAM_PROFILE_NAME: u32 = 2;
pub const PARAM_PROFILE_DESCRIPTION: u32 = 3;
pub const PARAM_PROFILE_PRIORITY: u32 = 4;
pub const PARAM_PROFILE_AVAILABLE: u32 = 5;
pub const PARAM_PROFILE_CLASSES: u32 = 7;
pub const PARAM_PROFILE_SAVE: u32 = 8;

pub const PARAM_ROUTE_INDEX: u32 = 1;
pub const PARAM_ROUTE_DIRECTION: u32 = 2;
pub const PARAM_ROUTE_DEVICE: u32 = 3;
pub const PARAM_ROUTE_NAME: u32 = 4;
pub const PARAM_ROUTE_DESCRIPTION: u32 = 5;
pub const PARAM_ROUTE_PRIORITY: u32 = 6;
pub const PARAM_ROUTE_AVAILABLE: u32 = 7;
pub const PARAM_ROUTE_PROFILES: u32 = 9;
pub const PARAM_ROUTE_PROPS: u32 = 10;
pub const PARAM_ROUTE_DEVICES: u32 = 11;
pub const PARAM_ROUTE_SAVE: u32 = 13;

/// Availability value meaning "not available".
pub const PARAM_AVAILABILITY_NO: u32 = 1;

pub const PROP_MUTE: u32 = 0x10004;
pub const PROP_CHANNEL_VOLUMES: u32 = 0x10008;

/// A POD value. Floats are carried as their IEEE-754 bit patterns.
pub enum PodValue {
    Bool(bool),
    Id(u32),
    Int(i32),
    String(String),
    IntArray(Vec<i32>),
    FloatArray(Vec<u32>),
    Struct(Vec<PodValue>),
    Object(PodObject),
    /// Any other kind of value.
    Other,
}

/// One property of a POD object.
pub struct PodProperty {
    pub key: u32,
    pub value: PodValue,
}

/// A POD object: its type, its id and its properties in order.
pub struct PodObject {
    pub type_: u32,
    pub id: u32,
    pub properties: Vec<PodProperty>,
}

/// The value of the first entry of a property dictionary with key `key`.
pub open spec fn prop_get(props: Seq<(String, String)>, key: Seq<char>) -> Option<String>
    decreases props.len(),
{
    if props.len() == 0 {
        None
    } else if props[0].0@ == key {
        Some(props[0].1)
    } else {
        prop_get(props.drop_first(), key)
    }
}

/// A text property: its value, or empty when absent.
pub open spec fn text_prop(props: Seq<(String, String)>, key: Seq<char>) -> Seq<char> {
    match prop_get(props, key) {
        Some(v) => v@,
        None => Seq::empty(),
    }
}

/// A numeric property: its value parsed as `u32`, or 0 when absent.
pub open spec fn number_prop(props: Seq<(String, String)>, key: Seq<char>) -> u32 {
    match prop_get(props, key) {
        Some(v) => match parse_u32_spec(v@) {
            Some(n) => n,
            None => 0,
        },
        None => 0,
    }
}

/// A numeric property is absent or parses as `u32`.
pub open spec fn number_prop_ok(props: Seq<(String, String)>, key: Seq<char>) -> bool {
    match prop_get(props, key) {
        Some(v) => parse_u32_spec(v@) is Some,
        None => true,
    }
}

/// The value of the first entry with key `key`.
pub fn get_prop<'a>(props: &'a Vec<(String, String)>, key: &str) -> (r: Option<&'a String>)
    ensures
        match r {
            Some(v) => prop_get(props@, key@) == Some(*v),
            None => prop_get(props@, key@) is None,
        },
{
    let n = props.len();
    let mut i: usize = 0;
    assert(props@.skip(0) =~= props@);
    while i < n
        invariant
            n == props@.len(),
            i <= n,
            prop_get(props@, key@) == prop_get(props@.skip(i as int), key@),
        decreases n - i,
    {
        let ghost rest = props@.skip(i as int);
        assert(rest[0] == props@[i as int]);
        assert(rest.drop_first() =~= props@.skip(i + 1));
        if str_eq(props[i].0.as_str(), key) {
            return Some(&props[i].1);
        }
        i = i + 1;
    }
    assert(props@.skip(n as int).len() == 0);
    None
}

/// A text property, or empty when absent.
pub fn get_text_prop(props: &Vec<(String, String)>, key: &str) -> (r: String)
    ensures
        r@ == text_prop(props@, key@),
{
    match get_prop(props, key) {
        Some(v) => v.clone(),
        None => String::new(),
    }
}

/// A numeric property, or 0 when absent; the value must parse when present.
pub fn get_number_prop(props: &Vec<(String, String)>, key: &str) -> (r: u32)
    requires
        number_prop_ok(props@, key@),
    ensures
        r == number_prop(props@, key@),
{
    match get_prop(props, key) {
        Some(v) => match parse_u32(v.as_str()) {
            Some(n) => n,
            None => 0,
        },
        None => 0,
    }
}

/// Whether the numeric property `key` is absent or parses as `u32`.
pub fn number_prop_parses(props: &Vec<(String, String)>, key: &str) -> (r: bool)
    ensures
        r == number_prop_ok(props@, key@),
{
    match get_prop(props, key) {
        Some(v) => parse_u32(v.as_str()).is_some(),
        None => true,
    }
}

} // verus!
