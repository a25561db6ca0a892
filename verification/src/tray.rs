//! Status-notifier tray items: where an item's D-Bus object lives, and the registry of
//! the items that the host currently follows.

use vstd::prelude::*;
use vstd::string::*;
use crate::string_map::{StringMap, keys_distinct, insert_entry, remove_entry, lemma_insert_entry, lemma_remove_entry};
use crate::text::{first_index, last_index, find_first, find_last, slice_string, concat_str};
use crate::dbus_events::{DbusCommand, DbusEvent, TrayItemNewProp};

verus! {

#[verifier::external_type_specification]
#[verifier::external_body]
#[verifier::reject_recursive_types(T)]
pub struct ExMpscSender<T>(tokio::sync::mpsc::Sender<T>);

#[verifier::external_type_specification]
#[verifier::external_body]
#[verifier::reject_recursive_types(T)]
pub struct ExOneshotSender<T>(tokio::sync::oneshot::Sender<T>);

/// The object path that an item registered by bus name alone is served at.
pub open spec fn default_item_path() -> Seq<char> {
    "/StatusNotifierItem"@
}

/// Where the item registered as `service` lives, as (bus name, object path).
/// `service` is either `<bus name>/<path>` (split at the first `/`, the path keeps
/// its leading `/`) or `<bus name>:<suffix>` (cut at the last `:`, default path).
pub open spec fn proxy_data_spec(service: Seq<char>) -> Option<(Seq<char>, Seq<char>)> {
    if service.contains('/') {
        let i = first_index(service, '/');
        Some((service.take(i), service.skip(i)))
    } else if service.contains(':') {
        let j = last_index(service, ':');
        Some((service.take(j), default_item_path()))
    } else {
        None
    }
}

/// Splits a registered item's service string into the bus name and the object path that
/// its proxy is built from; `None` when the string holds neither `/` nor `:`.
pub fn get_status_notifier_item_proxy_data(service: &str) -> (r: Option<(String, String)>)
    ensures
        match (r, proxy_data_spec(service@)) {
            (Some((d, p)), Some((sd, sp))) => d@ == sd && p@ == sp,
            (None, None) => true,
            _ => false,
        },
{
    let n = service.unicode_len();
    match find_first(service, '/') {
        Some(i) => {
            let destination = slice_string(service, 0, i);
            let path = slice_string(service, i, n);
            proof {
                assert(destination@ =~= service@.take(i as int));
                assert(path@ =~= service@.skip(i as int));
            }
            Some((destination, path))
        },
        None => match find_last(service, ':') {
            Some(j) => {
                let destination = slice_string(service, 0, j);
                proof {
                    reveal_strlit("/StatusNotifierItem");
                    assert(destination@ =~= service@.take(j as int));
                }
                Some((destination, String::from_str("/StatusNotifierItem")))
            },
            None => None,
        },
    }
}

/// What the host keeps of a followed tray item: its id and the channels that reach the
/// task serving it.
#[derive(Debug)]
pub struct TrayItemHandle {
    pub id: String,
    pub menu_call_tx: tokio::sync::mpsc::Sender<i32>,
    pub unregister_tx: tokio::sync::oneshot::Sender<()>,
}

/// The handle that the item with id `id` resolves to: `id` names a service through
/// `lookup`, and that service names a handle through `handles`.
pub open spec fn handle_by_id_spec(
    handles: Seq<(Seq<char>, TrayItemHandle)>,
    lookup: Seq<(Seq<char>, String)>,
    id: Seq<char>,
) -> Option<TrayItemHandle> {
    match crate::string_map::lookup(lookup, id) {
        Some(service) => crate::string_map::lookup(handles, service@),
        None => None,
    }
}

/// The two maps of the registry agree: every id names a service whose handle has that
/// id, and every followed service's handle id names that service again.
pub open spec fn tray_consistent(
    by_service: Seq<(Seq<char>, TrayItemHandle)>,
    by_id: Seq<(Seq<char>, String)>,
) -> bool {
    &&& forall|id: Seq<char>|
        #![trigger crate::string_map::lookup(by_id, id)]
        crate::string_map::lookup(by_id, id) matches Some(s) ==> (crate::string_map::lookup(by_service, s@) matches Some(
            h,
        ) && h.id@ == id)
    &&& forall|s: Seq<char>|
        #![trigger crate::string_map::lookup(by_service, s)]
        crate::string_map::lookup(by_service, s) matches Some(h) ==> (crate::string_map::lookup(by_id, h.id@) matches Some(
            t,
        ) && t@ == s)
}

/// Some followed service holds `handle`.
pub open spec fn is_followed(by_service: Seq<(Seq<char>, TrayItemHandle)>, handle: TrayItemHandle) -> bool {
    exists|s: Seq<char>| #[trigger] crate::string_map::lookup(by_service, s) == Some(handle)
}

/// Some followed service holds a handle with id `id`.
pub open spec fn has_handle_with_id(by_service: Seq<(Seq<char>, TrayItemHandle)>, id: Seq<char>) -> bool {
    exists|s: Seq<char>| #[trigger] crate::string_map::lookup(by_service, s) matches Some(h) && h.id@ == id
}

/// A change made to the tray registry: follow a handle under a service, or stop
/// following a service.
pub enum TrayChange {
    Insert(String, TrayItemHandle),
    Remove(String),
}

/// The registry's (by-service, by-id) contents after `change`, as `insert` and `remove`
/// make them.
pub open spec fn tray_step(
    st: (Seq<(Seq<char>, TrayItemHandle)>, Seq<(Seq<char>, String)>),
    change: TrayChange,
) -> (Seq<(Seq<char>, TrayItemHandle)>, Seq<(Seq<char>, String)>) {
    match change {
        TrayChange::Insert(key, handle) => (insert_entry(st.0, key@, handle), insert_entry(st.1, handle.id@, key)),
        TrayChange::Remove(service) => match crate::string_map::lookup(st.0, service@) {
            Some(item) => (remove_entry(st.0, service@), remove_entry(st.1, item.id@)),
            None => st,
        },
    }
}

/// The registry's contents after `changes`, starting from an empty registry.
pub open spec fn tray_history(changes: Seq<TrayChange>) -> (
    Seq<(Seq<char>, TrayItemHandle)>,
    Seq<(Seq<char>, String)>,
)
    decreases changes.len(),
{
    if changes.len() == 0 {
        (Seq::empty(), Seq::empty())
    } else {
        tray_step(tray_history(changes.drop_last()), changes.last())
    }
}

/// An insert follows a service not yet followed, with a handle whose id no followed
/// handle has; a removal is always fresh.
pub open spec fn fresh_change(
    st: (Seq<(Seq<char>, TrayItemHandle)>, Seq<(Seq<char>, String)>),
    change: TrayChange,
) -> bool {
    match change {
        TrayChange::Insert(key, handle) => crate::string_map::lookup(st.0, key@) is None && !has_handle_with_id(
            st.0,
            handle.id@,
        ),
        TrayChange::Remove(_) => true,
    }
}

/// Every change of `changes` is fresh where it is made.
pub open spec fn fresh_history(changes: Seq<TrayChange>) -> bool {
    forall|i: int| 0 <= i < changes.len() ==> fresh_change(tray_history(changes.take(i)), #[trigger] changes[i])
}

/// The tray items the host follows, by service and by item id.
pub struct TrayItemHandles {
    handles: StringMap<TrayItemHandle>,
    lookup: StringMap<String>,
}

impl TrayItemHandles {
    /// Handles by service, in the order the services were first inserted.
    pub closed spec fn handles_view(&self) -> Seq<(Seq<char>, TrayItemHandle)> {
        self.handles@
    }

    /// Services by item id, in the order the ids were first inserted.
    pub closed spec fn lookup_view(&self) -> Seq<(Seq<char>, String)> {
        self.lookup@
    }

    /// An empty registry.
    pub fn new() -> (r: Self)
        ensures
            r.handles_view() == Seq::<(Seq<char>, TrayItemHandle)>::empty(),
            r.lookup_view() == Seq::<(Seq<char>, String)>::empty(),
            tray_consistent(r.handles_view(), r.lookup_view()),
    {
        TrayItemHandles { handles: StringMap::new(), lookup: StringMap::new() }
    }

    /// Follows `handle` under the service `key`: the item's id now resolves to `key`,
    /// and `key` to `handle`.
    pub fn insert(&mut self, key: String, handle: TrayItemHandle)
        ensures
            final(self).lookup_view() == insert_entry(old(self).lookup_view(), handle.id@, key),
            final(self).handles_view() == insert_entry(old(self).handles_view(), key@, handle),
            keys_distinct(final(self).lookup_view()),
            keys_distinct(final(self).handles_view()),
            (final(self).handles_view(), final(self).lookup_view()) == tray_step(
                (old(self).handles_view(), old(self).lookup_view()),
                TrayChange::Insert(key, handle),
            ),
            tray_consistent(old(self).handles_view(), old(self).lookup_view())
                && crate::string_map::lookup(old(self).handles_view(), key@) is None
                && crate::string_map::lookup(old(self).lookup_view(), handle.id@) is None
                ==> tray_consistent(final(self).handles_view(), final(self).lookup_view()),
    {
        let ghost before_service = self.handles@;
        let ghost before_id = self.lookup@;
        let ghost key_string = key;
        let ghost inserted = handle;
        let id = handle.id.clone();
        let service = key.clone();
        self.lookup.insert(id, service);
        self.handles.insert(key, handle);
        proof {
            if tray_consistent(before_service, before_id)
                && crate::string_map::lookup(before_service, key_string@) is None
                && crate::string_map::lookup(before_id, inserted.id@) is None {
                lemma_insert_keeps_consistent(before_service, before_id, key_string, inserted);
            }
        }
    }

    /// The handle of the item whose id is `id`, if it is followed.
    pub fn get_by_id(&self, id: &str) -> (r: Option<&TrayItemHandle>)
        ensures
            r matches Some(h) ==> handle_by_id_spec(self.handles_view(), self.lookup_view(), id@) == Some(*h),
            r is None ==> handle_by_id_spec(self.handles_view(), self.lookup_view(), id@) is None,
            tray_consistent(self.handles_view(), self.lookup_view()) ==> match r {
                Some(h) => h.id@ == id@ && is_followed(self.handles_view(), *h),
                None => !has_handle_with_id(self.handles_view(), id@),
            },
    {
        let r = match self.lookup.get(id) {
            Some(service) => self.handles.get(service.as_str()),
            None => None,
        };
        proof {
            if tray_consistent(self.handles@, self.lookup@) {
                lemma_consistent_resolves_by_id(self.handles@, self.lookup@, id@);
                if r is Some {
                    let service = crate::string_map::lookup(self.lookup@, id@)->Some_0;
                    assert(crate::string_map::lookup(self.handles@, service@) is Some);
                }
            }
        }
        r
    }

    /// Stops following the item served as `service` and hands back its handle; the
    /// item's id no longer resolves.
    pub fn remove(&mut self, service: &str) -> (r: Option<TrayItemHandle>)
        ensures
            r == crate::string_map::lookup(old(self).handles_view(), service@),
            match r {
                Some(item) => {
                    &&& final(self).handles_view() == remove_entry(old(self).handles_view(), service@)
                    &&& final(self).lookup_view() == remove_entry(old(self).lookup_view(), item.id@)
                },
                None => {
                    &&& final(self).handles_view() == old(self).handles_view()
                    &&& final(self).lookup_view() == old(self).lookup_view()
                },
            },
            keys_distinct(final(self).handles_view()),
            keys_distinct(final(self).lookup_view()),
            forall|s: String|
                s@ == service@ ==> (final(self).handles_view(), final(self).lookup_view()) == #[trigger] tray_step(
                    (old(self).handles_view(), old(self).lookup_view()),
                    TrayChange::Remove(s),
                ),
            tray_consistent(old(self).handles_view(), old(self).lookup_view()) ==> tray_consistent(
                final(self).handles_view(),
                final(self).lookup_view(),
            ),
            tray_consistent(old(self).handles_view(), old(self).lookup_view()) ==> (r matches Some(item)
                ==> handle_by_id_spec(final(self).handles_view(), final(self).lookup_view(), item.id@) is None),
    {
        proof {
            use_type_invariant(&self.handles);
            use_type_invariant(&self.lookup);
            if tray_consistent(self.handles@, self.lookup@) {
                lemma_remove_keeps_consistent(self.handles@, self.lookup@, service@);
            }
        }
        match self.handles.remove(service) {
            Some(item) => {
                self.lookup.remove(item.id.as_str());
                Some(item)
            },
            None => None,
        }
    }
}

impl TrayItemHandles {
    /// Runs `f` on the handle of the item whose id is `id` (`None` when it is not
    /// followed) and returns what `f` returns.
    pub fn with_read_by_id<R, F: FnOnce(Option<&TrayItemHandle>) -> R>(&self, id: &str, f: F) -> (r: R)
        requires
            forall|h: Option<&TrayItemHandle>| f.requires((h,)),
        ensures
            exists|h: Option<&TrayItemHandle>| {
                &&& f.ensures((h,), r)
                &&& match h {
                    Some(h) => handle_by_id_spec(self.handles_view(), self.lookup_view(), id@) == Some(*h),
                    None => handle_by_id_spec(self.handles_view(), self.lookup_view(), id@) is None,
                }
            },
            tray_consistent(self.handles_view(), self.lookup_view()) ==> exists|h: Option<&TrayItemHandle>|
                {
                    &&& f.ensures((h,), r)
                    &&& match h {
                        Some(h) => h.id@ == id@ && is_followed(self.handles_view(), *h),
                        None => !has_handle_with_id(self.handles_view(), id@),
                    }
                },
    {
        let h = self.get_by_id(id);
        f(h)
    }

    /// Where a menu command goes: the menu-call channel of the addressed item and the
    /// entry to activate; `None` when the item is not followed.
    pub fn menu_call_target(&self, command: &DbusCommand) -> (r: Option<(&tokio::sync::mpsc::Sender<i32>, i32)>)
        ensures
            match command {
                DbusCommand::CallMenuEntry(item_id, entry_id) => match handle_by_id_spec(
                    self.handles_view(),
                    self.lookup_view(),
                    item_id@,
                ) {
                    Some(h) => r matches Some((tx, e)) && *tx == h.menu_call_tx && e == entry_id,
                    None => r is None,
                },
            },
    {
        match command {
            DbusCommand::CallMenuEntry(item_id, entry_id) => match self.get_by_id(item_id.as_str()) {
                Some(handle) => Some((&handle.menu_call_tx, *entry_id)),
                None => None,
            },
        }
    }

    /// Stops following the item served as `service`: hands back the channel that stops
    /// its task and the event that reports it gone; `None` when it was not followed.
    pub fn unregister_item(&mut self, service: &str) -> (r: Option<(tokio::sync::oneshot::Sender<()>, DbusEvent)>)
        ensures
            match crate::string_map::lookup(old(self).handles_view(), service@) {
                Some(h) => {
                    &&& r matches Some((tx, ev)) && tx == h.unregister_tx && ev == DbusEvent::UnregisterTrayItem(h.id)
                    &&& final(self).handles_view() == remove_entry(old(self).handles_view(), service@)
                    &&& final(self).lookup_view() == remove_entry(old(self).lookup_view(), h.id@)
                },
                None => {
                    &&& r is None
                    &&& final(self).handles_view() == old(self).handles_view()
                    &&& final(self).lookup_view() == old(self).lookup_view()
                },
            },
            keys_distinct(final(self).handles_view()),
            keys_distinct(final(self).lookup_view()),
            tray_consistent(old(self).handles_view(), old(self).lookup_view()) ==> tray_consistent(
                final(self).handles_view(),
                final(self).lookup_view(),
            ),
    {
        match self.remove(service) {
            Some(item) => Some((item.unregister_tx, DbusEvent::UnregisterTrayItem(item.id))),
            None => None,
        }
    }
}

/// The file an icon named `icon_name` is loaded from in the theme directory `path`:
/// `<path>/<icon_name>.png`.
pub fn icon_path(icon_name: &str, path: &str) -> (r: String)
    ensures
        r@ == path@ + "/"@ + icon_name@ + ".png"@,
{
    let mut r = concat_str(path, "/");
    r.append(icon_name);
    r.append(".png");
    r
}

/// The event that reports a new title of item `id`.
pub fn title_event(id: &str, title: String) -> (r: DbusEvent)
    ensures
        r matches DbusEvent::TrayItemNewProp(p) && p.id@ == id@ && p.prop_name@ == "title"@ && p.prop == title,
{
    DbusEvent::TrayItemNewProp(TrayItemNewProp { id: String::from_str(id), prop_name: String::from_str("title"), prop: title })
}

/// The event that reports a new status of item `id`.
pub fn status_event(id: &str, status: String) -> (r: DbusEvent)
    ensures
        r matches DbusEvent::TrayItemNewProp(p) && p.id@ == id@ && p.prop_name@ == "status"@ && p.prop == status,
{
    DbusEvent::TrayItemNewProp(TrayItemNewProp { id: String::from_str(id), prop_name: String::from_str("status"), prop: status })
}

/// When an item's service string holds a `/`, its bus name followed by its path is the
/// service string again.
pub proof fn lemma_proxy_data_rejoins(service: Seq<char>)
    requires
        service.contains('/'),
    ensures
        proxy_data_spec(service) matches Some((d, p)) && d + p == service && p[0] == '/',
{
    let i = choose|i: int| 0 <= i < service.len() && service[i] == '/';
    crate::text::lemma_first_index_exists(service, '/', i);
    let k = first_index(service, '/');
    assert(service.take(k) + service.skip(k) =~= service);
}

/// Once a handle is inserted under some service, its item id resolves to it.
pub proof fn lemma_insert_then_get_by_id(
    handles: Seq<(Seq<char>, TrayItemHandle)>,
    lookup: Seq<(Seq<char>, String)>,
    key: String,
    handle: TrayItemHandle,
)
    requires
        keys_distinct(handles),
        keys_distinct(lookup),
    ensures
        handle_by_id_spec(
            insert_entry(handles, key@, handle),
            insert_entry(lookup, handle.id@, key),
            handle.id@,
        ) == Some(handle),
{
    lemma_insert_entry(handles, key@, handle);
    lemma_insert_entry(lookup, handle.id@, key);
}

/// Removing the service that a handle was just inserted under hands that handle back,
/// and afterwards its item id resolves to nothing.
pub proof fn lemma_insert_then_remove(
    handles: Seq<(Seq<char>, TrayItemHandle)>,
    lookup: Seq<(Seq<char>, String)>,
    key: String,
    handle: TrayItemHandle,
)
    requires
        keys_distinct(handles),
        keys_distinct(lookup),
    ensures
        crate::string_map::lookup(insert_entry(handles, key@, handle), key@) == Some(handle),
        handle_by_id_spec(
            remove_entry(insert_entry(handles, key@, handle), key@),
            remove_entry(insert_entry(lookup, handle.id@, key), handle.id@),
            handle.id@,
        ) is None,
{
    lemma_insert_entry(handles, key@, handle);
    lemma_insert_entry(lookup, handle.id@, key);
    lemma_remove_entry(insert_entry(lookup, handle.id@, key), handle.id@);
}

/// Following a new service whose handle has an id not yet followed keeps the registry's
/// two maps in agreement.
pub proof fn lemma_insert_keeps_consistent(
    by_service: Seq<(Seq<char>, TrayItemHandle)>,
    by_id: Seq<(Seq<char>, String)>,
    key: String,
    handle: TrayItemHandle,
)
    requires
        keys_distinct(by_service),
        keys_distinct(by_id),
        tray_consistent(by_service, by_id),
        crate::string_map::lookup(by_service, key@) is None,
        crate::string_map::lookup(by_id, handle.id@) is None,
    ensures
        tray_consistent(insert_entry(by_service, key@, handle), insert_entry(by_id, handle.id@, key)),
{
    lemma_insert_entry(by_service, key@, handle);
    lemma_insert_entry(by_id, handle.id@, key);
    let s2 = insert_entry(by_service, key@, handle);
    let i2 = insert_entry(by_id, handle.id@, key);
    assert forall|id: Seq<char>|
        #![trigger crate::string_map::lookup(i2, id)]
        crate::string_map::lookup(i2, id) is Some implies (crate::string_map::lookup(
            s2,
            crate::string_map::lookup(i2, id)->Some_0@,
        ) matches Some(h) && h.id@ == id) by {
        if id != handle.id@ {
            let s = crate::string_map::lookup(by_id, id)->Some_0;
            assert(crate::string_map::lookup(by_service, s@) is Some);
        }
    }
    assert forall|sv: Seq<char>|
        #![trigger crate::string_map::lookup(s2, sv)]
        crate::string_map::lookup(s2, sv) is Some implies (crate::string_map::lookup(
            i2,
            crate::string_map::lookup(s2, sv)->Some_0.id@,
        ) matches Some(t) && t@ == sv) by {
        if sv != key@ {
            let h = crate::string_map::lookup(by_service, sv)->Some_0;
            assert(crate::string_map::lookup(by_id, h.id@) is Some);
        }
    }
}

/// Dropping a followed service, and the id of its handle, keeps the registry's two maps
/// in agreement.
pub proof fn lemma_remove_keeps_consistent(
    by_service: Seq<(Seq<char>, TrayItemHandle)>,
    by_id: Seq<(Seq<char>, String)>,
    service: Seq<char>,
)
    requires
        keys_distinct(by_service),
        keys_distinct(by_id),
        tray_consistent(by_service, by_id),
    ensures
        crate::string_map::lookup(by_service, service) matches Some(item) ==> tray_consistent(
            remove_entry(by_service, service),
            remove_entry(by_id, item.id@),
        ),
{
    if crate::string_map::lookup(by_service, service) is Some {
        let item = crate::string_map::lookup(by_service, service)->Some_0;
        lemma_remove_entry(by_service, service);
        lemma_remove_entry(by_id, item.id@);
        let s2 = remove_entry(by_service, service);
        let i2 = remove_entry(by_id, item.id@);
        assert(crate::string_map::lookup(by_id, item.id@) is Some);
        assert forall|id: Seq<char>|
            #![trigger crate::string_map::lookup(i2, id)]
            crate::string_map::lookup(i2, id) is Some implies (crate::string_map::lookup(
                s2,
                crate::string_map::lookup(i2, id)->Some_0@,
            ) matches Some(h) && h.id@ == id) by {
            let s = crate::string_map::lookup(by_id, id)->Some_0;
            assert(crate::string_map::lookup(by_service, s@) is Some);
        }
        assert forall|sv: Seq<char>|
            #![trigger crate::string_map::lookup(s2, sv)]
            crate::string_map::lookup(s2, sv) is Some implies (crate::string_map::lookup(
                i2,
                crate::string_map::lookup(s2, sv)->Some_0.id@,
            ) matches Some(t) && t@ == sv) by {
            let h = crate::string_map::lookup(by_service, sv)->Some_0;
            assert(crate::string_map::lookup(by_id, h.id@) is Some);
        }
    }
}

/// In a registry whose maps agree, an id resolves to the followed handle with that id,
/// and to nothing when no followed handle has it.
pub proof fn lemma_consistent_resolves_by_id(
    by_service: Seq<(Seq<char>, TrayItemHandle)>,
    by_id: Seq<(Seq<char>, String)>,
    id: Seq<char>,
)
    requires
        tray_consistent(by_service, by_id),
    ensures
        handle_by_id_spec(by_service, by_id, id) matches Some(x) ==> x.id@ == id,
        handle_by_id_spec(by_service, by_id, id) is Some <==> has_handle_with_id(by_service, id),
        forall|s: Seq<char>|
            #![trigger crate::string_map::lookup(by_service, s)]
            crate::string_map::lookup(by_service, s) is Some && crate::string_map::lookup(by_service, s)->Some_0.id@
                == id ==> handle_by_id_spec(by_service, by_id, id) == crate::string_map::lookup(by_service, s),
{
    if crate::string_map::lookup(by_id, id) is Some {
        let s = crate::string_map::lookup(by_id, id)->Some_0;
        assert(crate::string_map::lookup(by_service, s@) is Some);
    }
    if has_handle_with_id(by_service, id) {
        let s = choose|s: Seq<char>| #[trigger] crate::string_map::lookup(by_service, s) matches Some(h) && h.id@ == id;
        assert(crate::string_map::lookup(by_service, s) is Some);
    }
}

/// With agreeing maps, a handle id that no followed handle has is not in the by-id map.
proof fn lemma_unfollowed_id_unmapped(
    by_service: Seq<(Seq<char>, TrayItemHandle)>,
    by_id: Seq<(Seq<char>, String)>,
    id: Seq<char>,
)
    requires
        tray_consistent(by_service, by_id),
        !has_handle_with_id(by_service, id),
    ensures
        crate::string_map::lookup(by_id, id) is None,
{
    if crate::string_map::lookup(by_id, id) is Some {
        let s = crate::string_map::lookup(by_id, id)->Some_0;
        assert(crate::string_map::lookup(by_service, s@) is Some);
    }
}

/// A prefix of a fresh history is fresh.
proof fn lemma_fresh_prefix(changes: Seq<TrayChange>, k: int)
    requires
        fresh_history(changes),
        0 <= k <= changes.len(),
    ensures
        fresh_history(changes.take(k)),
{
    let p = changes.take(k);
    assert forall|i: int| 0 <= i < p.len() implies fresh_change(tray_history(p.take(i)), #[trigger] p[i]) by {
        assert(p.take(i) =~= changes.take(i));
        assert(p[i] == changes[i]);
    }
}

/// A registry built from empty by fresh changes has distinct keys in both maps, and the
/// maps agree.
pub proof fn lemma_history_consistent(changes: Seq<TrayChange>)
    requires
        fresh_history(changes),
    ensures
        keys_distinct(tray_history(changes).0),
        keys_distinct(tray_history(changes).1),
        tray_consistent(tray_history(changes).0, tray_history(changes).1),
    decreases changes.len(),
{
    if changes.len() > 0 {
        let n = changes.len() - 1;
        let prefix = changes.drop_last();
        assert(prefix =~= changes.take(n));
        lemma_fresh_prefix(changes, n);
        lemma_history_consistent(prefix);
        let st = tray_history(prefix);
        assert(fresh_change(tray_history(changes.take(n)), changes[n]));
        match changes.last() {
            TrayChange::Insert(key, handle) => {
                lemma_unfollowed_id_unmapped(st.0, st.1, handle.id@);
                lemma_insert_keeps_consistent(st.0, st.1, key, handle);
            },
            TrayChange::Remove(service) => {
                lemma_remove_keeps_consistent(st.0, st.1, service@);
                if crate::string_map::lookup(st.0, service@) is Some {
                    let item = crate::string_map::lookup(st.0, service@)->Some_0;
                    lemma_remove_entry(st.0, service@);
                    lemma_remove_entry(st.1, item.id@);
                }
            },
        }
    } else {
        assert(tray_history(changes).0 =~= Seq::<(Seq<char>, TrayItemHandle)>::empty());
    }
}

/// In a registry built from empty by fresh changes, an id resolves to the followed handle
/// with that id, and to nothing when no followed handle has it.
pub proof fn lemma_history_resolves_by_id(changes: Seq<TrayChange>, id: Seq<char>)
    requires
        fresh_history(changes),
    ensures
        handle_by_id_spec(tray_history(changes).0, tray_history(changes).1, id) matches Some(x) ==> x.id@ == id,
        handle_by_id_spec(tray_history(changes).0, tray_history(changes).1, id) is Some <==> has_handle_with_id(
            tray_history(changes).0,
            id,
        ),
        forall|s: Seq<char>|
            #![trigger crate::string_map::lookup(tray_history(changes).0, s)]
            crate::string_map::lookup(tray_history(changes).0, s) is Some && crate::string_map::lookup(
                tray_history(changes).0,
                s,
            )->Some_0.id@ == id ==> handle_by_id_spec(tray_history(changes).0, tray_history(changes).1, id)
                == crate::string_map::lookup(tray_history(changes).0, s),
{
    lemma_history_consistent(changes);
    lemma_consistent_resolves_by_id(tray_history(changes).0, tray_history(changes).1, id);
}

/// Removing a followed service from a registry built by fresh changes keeps the history
/// fresh, and afterwards the removed handle's id resolves to nothing.
pub proof fn lemma_history_remove(changes: Seq<TrayChange>, service: String)
    requires
        fresh_history(changes),
        crate::string_map::lookup(tray_history(changes).0, service@) is Some,
    ensures
        fresh_history(changes.push(TrayChange::Remove(service))),
        handle_by_id_spec(
            tray_history(changes.push(TrayChange::Remove(service))).0,
            tray_history(changes.push(TrayChange::Remove(service))).1,
            crate::string_map::lookup(tray_history(changes).0, service@)->Some_0.id@,
        ) is None,
        !has_handle_with_id(
            tray_history(changes.push(TrayChange::Remove(service))).0,
            crate::string_map::lookup(tray_history(changes).0, service@)->Some_0.id@,
        ),
{
    let next = changes.push(TrayChange::Remove(service));
    let st = tray_history(changes);
    let item = crate::string_map::lookup(st.0, service@)->Some_0;
    assert(next.drop_last() =~= changes);
    assert forall|i: int| 0 <= i < next.len() implies fresh_change(tray_history(next.take(i)), #[trigger] next[i]) by {
        if i < changes.len() {
            assert(next.take(i) =~= changes.take(i));
            assert(next[i] == changes[i]);
        }
    }
    lemma_history_consistent(changes);
    lemma_remove_entry(st.1, item.id@);
    lemma_history_consistent(next);
    lemma_consistent_resolves_by_id(tray_history(next).0, tray_history(next).1, item.id@);
}

} // verus!
