//! The status-notifier watcher: which items and hosts are registered, and which signal
//! each registration event calls for.

use vstd::prelude::*;
use crate::string_map::{StringMap, has_key, lookup, keys_distinct, insert_entry, remove_entry,
    lemma_insert_entry, lemma_remove_entry};
use crate::text::concat_str;

verus! {

/// The object the bar serves as a status-notifier host; it has no methods.
pub struct StatusNotifierHost {}

/// What the watcher is told: a service registered an item or a host at a path, or a
/// bus name lost its owner.
pub enum WatcherEvent {
    RegisterItem(String, String),
    RegisterHost(String, String),
    Unregister(String),
}

/// The kind of signal the watcher emits.
#[derive(PartialEq, Eq, Structural)]
pub enum SignalKind {
    ItemRegistered,
    ItemUnregistered,
    HostRegistered,
    HostUnregistered,
}

/// A signal to emit, with the registration entry (`service` followed by `path`) it is about.
pub struct WatcherSignal {
    pub kind: SignalKind,
    pub entry: String,
}

/// The registered items and hosts, each by the service that registered it.
pub struct WatcherRegistry {
    items: StringMap<String>,
    host: StringMap<String>,
}

/// The event that a registration call makes: none when the call has no sender.
pub fn register_item_event(sender: Option<String>, path: String) -> (r: Option<WatcherEvent>)
    ensures
        match sender {
            Some(s) => r == Some(WatcherEvent::RegisterItem(s, path)),
            None => r is None,
        },
{
    match sender {
        Some(service) => Some(WatcherEvent::RegisterItem(service, path)),
        None => None,
    }
}

/// The event that a host registration call makes: none when the call has no sender.
pub fn register_host_event(sender: Option<String>, path: String) -> (r: Option<WatcherEvent>)
    ensures
        match sender {
            Some(s) => r == Some(WatcherEvent::RegisterHost(s, path)),
            None => r is None,
        },
{
    match sender {
        Some(service) => Some(WatcherEvent::RegisterHost(service, path)),
        None => None,
    }
}

/// The event that a change of a bus name's owner makes: the name is unregistered when
/// it has no new owner.
pub fn owner_change_event(name: String, has_new_owner: bool) -> (r: Option<WatcherEvent>)
    ensures
        has_new_owner ==> r is None,
        !has_new_owner ==> r == Some(WatcherEvent::Unregister(name)),
{
    if has_new_owner {
        None
    } else {
        Some(WatcherEvent::Unregister(name))
    }
}

impl WatcherRegistry {
    /// Registered item entries by service, in registration order.
    pub closed spec fn items_view(&self) -> Seq<(Seq<char>, String)> {
        self.items@
    }

    /// Registered host entries by service, in registration order.
    pub closed spec fn host_view(&self) -> Seq<(Seq<char>, String)> {
        self.host@
    }

    /// Nothing registered.
    pub fn new() -> (r: Self)
        ensures
            r.items_view() == Seq::<(Seq<char>, String)>::empty(),
            r.host_view() == Seq::<(Seq<char>, String)>::empty(),
    {
        WatcherRegistry { items: StringMap::new(), host: StringMap::new() }
    }

    /// Applies an event and returns the signal it calls for. A registration stores the
    /// entry `service` + `path` under the service and announces it. An unregistration
    /// drops the service's item entry and announces that; only when the service has no
    /// item does it drop the service's host entry instead; otherwise nothing happens.
    pub fn handle_event(&mut self, event: WatcherEvent) -> (r: Option<WatcherSignal>)
        ensures
            keys_distinct(final(self).items_view()),
            keys_distinct(final(self).host_view()),
            match event {
                WatcherEvent::RegisterItem(service, path) => r matches Some(sig) && {
                    &&& sig.kind == SignalKind::ItemRegistered
                    &&& sig.entry@ == service@ + path@
                    &&& final(self).items_view() == insert_entry(old(self).items_view(), service@, sig.entry)
                    &&& final(self).host_view() == old(self).host_view()
                },
                WatcherEvent::RegisterHost(service, path) => r matches Some(sig) && {
                    &&& sig.kind == SignalKind::HostRegistered
                    &&& sig.entry@ == service@ + path@
                    &&& final(self).host_view() == insert_entry(old(self).host_view(), service@, sig.entry)
                    &&& final(self).items_view() == old(self).items_view()
                },
                WatcherEvent::Unregister(service) => {
                    if has_key(old(self).items_view(), service@) {
                        &&& r matches Some(sig) && sig.kind == SignalKind::ItemUnregistered
                            && Some(sig.entry) == lookup(old(self).items_view(), service@)
                        &&& final(self).items_view() == remove_entry(old(self).items_view(), service@)
                        &&& final(self).host_view() == old(self).host_view()
                    } else if has_key(old(self).host_view(), service@) {
                        &&& r matches Some(sig) && sig.kind == SignalKind::HostUnregistered
                            && Some(sig.entry) == lookup(old(self).host_view(), service@)
                        &&& final(self).host_view() == remove_entry(old(self).host_view(), service@)
                        &&& final(self).items_view() == old(self).items_view()
                    } else {
                        &&& r is None
                        &&& final(self).items_view() == old(self).items_view()
                        &&& final(self).host_view() == old(self).host_view()
                    }
                },
            },
    {
        proof {
            use_type_invariant(&self.items);
            use_type_invariant(&self.host);
        }
        match event {
            WatcherEvent::RegisterItem(service, path) => {
                let entry = concat_str(service.as_str(), path.as_str());
                self.items.insert(service, entry.clone());
                Some(WatcherSignal { kind: SignalKind::ItemRegistered, entry })
            },
            WatcherEvent::RegisterHost(service, path) => {
                let entry = concat_str(service.as_str(), path.as_str());
                self.host.insert(service, entry.clone());
                Some(WatcherSignal { kind: SignalKind::HostRegistered, entry })
            },
            WatcherEvent::Unregister(service) => {
                if let Some(entry) = self.items.remove(service.as_str()) {
                    Some(WatcherSignal { kind: SignalKind::ItemUnregistered, entry })
                } else if let Some(entry) = self.host.remove(service.as_str()) {
                    Some(WatcherSignal { kind: SignalKind::HostUnregistered, entry })
                } else {
                    None
                }
            },
        }
    }

    /// The entries of the registered items, in registration order.
    pub fn registered_status_notifier_items(&self) -> (r: Vec<String>)
        ensures
            r@.len() == self.items_view().len(),
            forall|i: int| 0 <= i < r@.len() ==> #[trigger] r@[i] == self.items_view()[i].1,
    {
        self.items.values()
    }

    /// Whether some host is registered.
    pub fn is_status_notifier_host_registered(&self) -> (r: bool)
        ensures
            r == (self.host_view().len() > 0),
    {
        !self.host.is_empty()
    }
}

/// Registering an item and then unregistering its service announces the removal of the
/// same entry that the registration announced, and the service no longer has an item.
pub proof fn lemma_register_then_unregister_item(
    items: Seq<(Seq<char>, String)>,
    service: Seq<char>,
    entry: String,
)
    requires
        keys_distinct(items),
    ensures
        has_key(insert_entry(items, service, entry), service),
        lookup(insert_entry(items, service, entry), service) == Some(entry),
        !has_key(remove_entry(insert_entry(items, service, entry), service), service),
{
    lemma_insert_entry(items, service, entry);
    lemma_remove_entry(insert_entry(items, service, entry), service);
}

/// Registering a host makes the watcher report a registered host.
pub proof fn lemma_register_host_reports_host(
    host: Seq<(Seq<char>, String)>,
    service: Seq<char>,
    entry: String,
)
    requires
        keys_distinct(host),
    ensures
        insert_entry(host, service, entry).len() > 0,
{
    lemma_insert_entry(host, service, entry);
}

} // verus!
