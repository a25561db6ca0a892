//! Reading one entry of a tray item's D-Bus menu layout.

use vstd::prelude::*;
use vstd::string::*;
use crate::dbus_events::MenuEntry;
use crate::text::{str_eq, concat_str, usize_to_decimal, decimal_digits};

verus! {

/// The part of a D-Bus value that a menu layout entry is read from.
pub enum MenuValue {
    I32(i32),
    Bool(bool),
    Str(String),
    /// A value wrapped in a variant.
    Variant(Box<MenuValue>),
    /// A dictionary keyed by strings, in the order the bus delivered it.
    Dict(Vec<(String, MenuValue)>),
    Structure(Vec<MenuValue>),
    /// Any other kind of value.
    Other,
}

/// Why a layout entry could not be read.
pub enum MenuParseError {
    NotAStructure,
    WrongFieldCount(usize),
    FieldTypeError(&'static str),
}

/// The value stored under `key` in a dictionary, one variant layer unwrapped.
pub open spec fn dict_get(entries: Seq<(String, MenuValue)>, key: Seq<char>) -> Option<MenuValue>
    decreases entries.len(),
{
    if entries.len() == 0 {
        None
    } else if entries[0].0@ == key {
        match entries[0].1 {
            MenuValue::Variant(inner) => Some(*inner),
            v => Some(v),
        }
    } else {
        dict_get(entries.drop_first(), key)
    }
}

/// The `label` property: a string, or empty.
pub open spec fn label_spec(entries: Seq<(String, MenuValue)>) -> Seq<char> {
    match dict_get(entries, "label"@) {
        Some(MenuValue::Str(s)) => s@,
        _ => Seq::empty(),
    }
}

/// The `visible` property: a boolean, or `true`.
pub open spec fn visible_spec(entries: Seq<(String, MenuValue)>) -> bool {
    match dict_get(entries, "visible"@) {
        Some(MenuValue::Bool(b)) => b,
        _ => true,
    }
}

/// The `type` property: a string, or `entry`.
pub open spec fn type_spec(entries: Seq<(String, MenuValue)>) -> Seq<char> {
    match dict_get(entries, "type"@) {
        Some(MenuValue::Str(s)) => s@,
        _ => "entry"@,
    }
}

/// What a menu entry holds: id, label, visibility, type.
pub open spec fn entry_view(e: MenuEntry) -> (i32, Seq<char>, bool, Seq<char>) {
    (e.id, e.label@, e.visible, e.type_@)
}

/// The entry that a layout value reads as, when it is a well-formed one.
pub open spec fn menu_entry_spec(v: MenuValue) -> Option<(i32, Seq<char>, bool, Seq<char>)> {
    match v {
        MenuValue::Structure(fields) => {
            if fields@.len() == 3 && fields@[0] is I32 && fields@[1] is Dict {
                let dict = fields@[1]->Dict_0@;
                Some((fields@[0]->I32_0, label_spec(dict), visible_spec(dict), type_spec(dict)))
            } else {
                None
            }
        },
        _ => None,
    }
}

/// The entries that the well-formed values of `children` read as, in order.
pub open spec fn menu_entries_spec(children: Seq<MenuValue>) -> Seq<(i32, Seq<char>, bool, Seq<char>)>
    decreases children.len(),
{
    if children.len() == 0 {
        Seq::empty()
    } else {
        let rest = menu_entries_spec(children.drop_last());
        match menu_entry_spec(children.last()) {
            Some(e) => rest.push(e),
            None => rest,
        }
    }
}

/// The value stored under `key`, one variant layer unwrapped.
fn get_property<'a>(entries: &'a Vec<(String, MenuValue)>, key: &str) -> (r: Option<&'a MenuValue>)
    ensures
        match r {
            Some(v) => dict_get(entries@, key@) == Some(*v),
            None => dict_get(entries@, key@) is None,
        },
{
    let n = entries.len();
    let mut i: usize = 0;
    assert(entries@.skip(0) =~= entries@);
    while i < n
        invariant
            n == entries@.len(),
            i <= n,
            dict_get(entries@, key@) == dict_get(entries@.skip(i as int), key@),
        decreases n - i,
    {
        let ghost rest = entries@.skip(i as int);
        assert(rest[0] == entries@[i as int]);
        assert(rest.drop_first() =~= entries@.skip(i + 1));
        if str_eq(entries[i].0.as_str(), key) {
            return match &entries[i].1 {
                MenuValue::Variant(inner) => Some(&**inner),
                v => Some(v),
            };
        }
        i = i + 1;
    }
    assert(entries@.skip(n as int).len() == 0);
    None
}

/// Reads a layout entry: a structure of three fields, the entry id (an `i32`) and a
/// property dictionary, from which `label`, `visible` and `type` are taken with their
/// defaults (empty, `true`, `entry`).
pub fn parse_as_menu_entry(owned: &MenuValue) -> (r: Result<MenuEntry, MenuParseError>)
    ensures
        match owned {
            MenuValue::Structure(fields) => {
                if fields@.len() != 3 {
                    r == Err::<MenuEntry, MenuParseError>(MenuParseError::WrongFieldCount(fields@.len() as usize))
                } else if !(fields@[0] is I32) {
                    r == Err::<MenuEntry, MenuParseError>(MenuParseError::FieldTypeError("i32"))
                } else {
                    match fields@[1] {
                        MenuValue::Dict(dict) => r matches Ok(e) && {
                            &&& e.id == fields@[0]->I32_0
                            &&& e.label@ == label_spec(dict@)
                            &&& e.visible == visible_spec(dict@)
                            &&& e.type_@ == type_spec(dict@)
                        },
                        _ => r == Err::<MenuEntry, MenuParseError>(MenuParseError::NotAStructure),
                    }
                }
            },
            _ => r == Err::<MenuEntry, MenuParseError>(MenuParseError::NotAStructure),
        },
        match r {
            Ok(e) => menu_entry_spec(*owned) == Some(entry_view(e)),
            Err(_) => menu_entry_spec(*owned) is None,
        },
{
    match owned {
        MenuValue::Structure(fields) => {
            if fields.len() != 3 {
                return Err(MenuParseError::WrongFieldCount(fields.len()));
            }
            let id = match &fields[0] {
                MenuValue::I32(n) => *n,
                _ => return Err(MenuParseError::FieldTypeError("i32")),
            };
            match &fields[1] {
                MenuValue::Dict(dict) => {
                    let label = match get_property(dict, "label") {
                        Some(MenuValue::Str(label)) => label.clone(),
                        _ => String::new(),
                    };
                    let visible = match get_property(dict, "visible") {
                        Some(MenuValue::Bool(visible)) => *visible,
                        _ => true,
                    };
                    let type_ = match get_property(dict, "type") {
                        Some(MenuValue::Str(t)) => t.clone(),
                        _ => String::from_str("entry"),
                    };
                    Ok(MenuEntry { id, label, visible, type_ })
                },
                _ => Err(MenuParseError::NotAStructure),
            }
        },
        _ => Err(MenuParseError::NotAStructure),
    }
}

/// The menu that a layout's top-level children describe: the children that read as
/// entries, in order; the others are skipped.
pub fn get_menu(children: &Vec<MenuValue>) -> (r: Vec<MenuEntry>)
    ensures
        r@.map_values(|e: MenuEntry| entry_view(e)) == menu_entries_spec(children@),
{
    let mut entries: Vec<MenuEntry> = Vec::new();
    let n = children.len();
    let mut i: usize = 0;
    while i < n
        invariant
            n == children@.len(),
            i <= n,
            entries@.map_values(|e: MenuEntry| entry_view(e)) == menu_entries_spec(children@.take(i as int)),
        decreases n - i,
    {
        let ghost prefix = children@.take(i + 1);
        assert(prefix.drop_last() =~= children@.take(i as int));
        assert(prefix.last() == children@[i as int]);
        match parse_as_menu_entry(&children[i]) {
            Ok(entry) => {
                entries.push(entry);
                assert(entries@.map_values(|e: MenuEntry| entry_view(e)) =~= menu_entries_spec(prefix));
            },
            Err(_) => {},
        }
        i = i + 1;
    }
    assert(children@.take(n as int) =~= children@);
    entries
}

impl MenuParseError {
    /// The text that describes the error.
    pub open spec fn message_spec(&self) -> Seq<char> {
        match self {
            MenuParseError::NotAStructure => "Not a structure"@,
            MenuParseError::WrongFieldCount(count) => "Wrong field count: "@ + decimal_digits(
                *count as nat,
            ) + ", expected 3"@,
            MenuParseError::FieldTypeError(t) => "Field type error "@ + t@,
        }
    }

    /// The text that describes the error.
    pub fn message(&self) -> (r: String)
        ensures
            r@ == self.message_spec(),
    {
        match self {
            MenuParseError::NotAStructure => String::from_str("Not a structure"),
            MenuParseError::WrongFieldCount(count) => {
                let mut r = String::from_str("Wrong field count: ");
                let digits = usize_to_decimal(*count);
                r.append(digits.as_str());
                r.append(", expected 3");
                r
            },
            MenuParseError::FieldTypeError(t) => concat_str("Field type error ", t),
        }
    }
}

/// A layout child that parses as a menu entry: a structure of three fields whose first
/// is an `i32` and whose second is a dictionary.
pub open spec fn entry_shaped(v: MenuValue) -> bool {
    v matches MenuValue::Structure(fields) && fields@.len() == 3 && fields@[0] is I32 && fields@[1] is Dict
}

/// The menu holds one entry for every child that parses, whatever its type or label,
/// in the children's order: it is the parsing children, each read as its entry.
pub proof fn lemma_menu_keeps_every_entry(children: Seq<MenuValue>)
    ensures
        forall|c: MenuValue| #[trigger] menu_entry_spec(c) is Some <==> entry_shaped(c),
        menu_entries_spec(children) == children.filter(|c: MenuValue| entry_shaped(c)).map_values(
            |c: MenuValue| menu_entry_spec(c)->Some_0,
        ),
        menu_entries_spec(children).len() == children.filter(|c: MenuValue| entry_shaped(c)).len(),
    decreases children.len(),
{
    let f = |c: MenuValue| entry_shaped(c);
    let g = |c: MenuValue| menu_entry_spec(c)->Some_0;
    assert forall|c: MenuValue| #[trigger] menu_entry_spec(c) is Some <==> entry_shaped(c) by {}
    reveal_with_fuel(Seq::<_>::filter, 1);
    if children.len() == 0 {
        assert(children.filter(f) =~= Seq::<MenuValue>::empty());
        assert(children.filter(f).map_values(g) =~= Seq::<(i32, Seq<char>, bool, Seq<char>)>::empty());
    } else {
        let front = children.drop_last();
        lemma_menu_keeps_every_entry(front);
        if f(children.last()) {
            assert(children.filter(f) == front.filter(f).push(children.last()));
            assert(children.filter(f).map_values(g) =~= front.filter(f).map_values(g).push(g(children.last())));
        } else {
            assert(children.filter(f) == front.filter(f));
        }
    }
}

} // verus!
