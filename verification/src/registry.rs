//! The table of open handles, keyed by canonical path.
//!
//! The table names each handle by a number and never owns it: whether the
//! handle behind an entry still has a holder is something only the caller can
//! observe, so every decision here takes that observation as an argument. An
//! entry whose handle has no holder left is stale; it never answers a lookup
//! for sharing, and the next registration for its path replaces it.

use pi_hash::XHashMap;
use vstd::prelude::*;

verus! {

/// The hasher that `pi_hash` selects for its maps. Verus sees nothing inside.
#[verifier::external_type_specification]
#[verifier::external_body]
pub struct ExPathHasher(pi_hash::DefaultHasher);

/// `std::hash::BuildHasherDefault`, the hasher factory of `pi_hash`'s maps.
/// Verus sees nothing inside.
#[verifier::external_type_specification]
#[verifier::external_body]
#[verifier::reject_recursive_types(H)]
pub struct ExBuildHasherDefault<H>(std::hash::BuildHasherDefault<H>);

/// The entries of a path table: for each path that has one, the number of the
/// handle registered under it.
pub uninterp spec fn table_entries(table: XHashMap<Vec<u8>, u64>) -> Map<Seq<u8>, u64>;

/// The entry of `path` in `entries`, if there is one.
pub open spec fn entry_of(entries: Map<Seq<u8>, u64>, path: Seq<u8>) -> Option<u64> {
    if entries.contains_key(path) {
        Some(entries[path])
    } else {
        None
    }
}

/// `XHashMap::default`, which is `HashMap::default`: a map without entries.
#[verifier::external_body]
fn table_new() -> (table: XHashMap<Vec<u8>, u64>)
    ensures
        table_entries(table) == (Map::<Seq<u8>, u64>::empty()),
{
    XHashMap::default()
}

/// `HashMap::get`: the value stored under `path`, or nothing where the map
/// has no such key.
#[verifier::external_body]
fn table_get(table: &XHashMap<Vec<u8>, u64>, path: &[u8]) -> (found: Option<u64>)
    ensures
        found == entry_of(table_entries(*table), path@),
{
    table.get(path).copied()
}

/// `HashMap::insert`: afterwards `path` maps to `id` and every other key is
/// as before; the result is the value that `path` had, if any.
#[verifier::external_body]
fn table_insert(table: &mut XHashMap<Vec<u8>, u64>, path: &[u8], id: u64) -> (previous: Option<u64>)
    ensures
        table_entries(*final(table)) == table_entries(*old(table)).insert(path@, id),
        previous == entry_of(table_entries(*old(table)), path@),
{
    table.insert(path.to_vec(), id)
}

/// `HashMap::remove`: afterwards `path` is no key and every other key is as
/// before; the result is the value that `path` had, if any.
#[verifier::external_body]
fn table_remove(table: &mut XHashMap<Vec<u8>, u64>, path: &[u8]) -> (previous: Option<u64>)
    ensures
        table_entries(*final(table)) == table_entries(*old(table)).remove(path@),
        previous == entry_of(table_entries(*old(table)), path@),
{
    table.remove(path)
}

/// How a registration ended.
#[derive(Clone, Copy, Debug, PartialEq, Eq, Structural)]
pub enum Registration {
    /// The path already had a handle with a holder: that handle wins, and a
    /// handle opened meanwhile is to be dropped.
    Existing { id: u64 },
    /// The path now maps to the new handle `id`. `replaced` is the stale
    /// handle that the entry held before, if any.
    Fresh { id: u64, replaced: Option<u64> },
}

/// A registry, as mathematics.
pub struct RegistryView {
    /// Path to handle number.
    pub entries: Map<Seq<u8>, u64>,
    /// How many handle numbers were given out: the next one is this.
    pub issued: nat,
}

impl RegistryView {
    /// The registry before any handle was opened.
    pub open spec fn empty() -> RegistryView {
        RegistryView { entries: Map::empty(), issued: 0 }
    }

    /// Every handle number in the table was given out before, and the count
    /// of those given out fits the counter.
    pub open spec fn valid(self) -> bool {
        &&& self.issued <= u64::MAX
        &&& forall|path: Seq<u8>| #[trigger]
            self.entries.contains_key(path) ==> self.entries[path] < self.issued
    }

    /// The handle registered under `path`, stale or not.
    pub open spec fn candidate(self, path: Seq<u8>) -> Option<u64> {
        entry_of(self.entries, path)
    }

    /// The handle that an open of `path` shares: the one registered under
    /// `path`, provided it still has a holder.
    pub open spec fn live(self, path: Seq<u8>, alive: bool) -> Option<u64> {
        if alive {
            self.candidate(path)
        } else {
            None
        }
    }

    /// The registry after a newly opened handle was offered for `path`, and
    /// how the offer ended. A registered handle with a holder wins and the
    /// registry stays as it is; otherwise the next handle number is given out
    /// and `path` maps to it.
    pub open spec fn registered(self, path: Seq<u8>, alive: bool) -> (
        RegistryView,
        Registration,
    ) {
        match self.live(path, alive) {
            Some(id) => (self, Registration::Existing { id }),
            None => (
                RegistryView {
                    entries: self.entries.insert(path, self.issued as u64),
                    issued: self.issued + 1,
                },
                Registration::Fresh { id: self.issued as u64, replaced: self.candidate(path) },
            ),
        }
    }

    /// The registry after the entry of `path` was swept: a stale entry is
    /// gone, one with a holder stays.
    pub open spec fn swept(self, path: Seq<u8>, alive: bool) -> RegistryView {
        if alive {
            self
        } else {
            RegistryView { entries: self.entries.remove(path), issued: self.issued }
        }
    }
}

/// The path-keyed table of handles.
pub struct HandleRegistry {
    table: XHashMap<Vec<u8>, u64>,
    issued: u64,
}

impl View for HandleRegistry {
    type V = RegistryView;

    closed spec fn view(&self) -> RegistryView {
        RegistryView { entries: table_entries(self.table), issued: self.issued as nat }
    }
}

impl HandleRegistry {
    /// A registry without entries.
    pub fn new() -> (registry: HandleRegistry)
        ensures
            registry@ == RegistryView::empty(),
            registry@.valid(),
    {
        HandleRegistry { table: table_new(), issued: 0 }
    }

    /// Whether another handle number can be given out.
    pub fn has_room(&self) -> (room: bool)
        ensures
            room == (self@.issued < u64::MAX),
    {
        self.issued < u64::MAX
    }

    /// The handle registered under `path`, stale or not. The caller finds out
    /// whether it still has a holder.
    pub fn lookup(&self, path: &[u8]) -> (found: Option<u64>)
        ensures
            found == self@.candidate(path@),
    {
        table_get(&self.table, path)
    }

    /// Offers a newly opened handle for `path`. `alive` says whether the
    /// handle now registered under `path`, if any, still has a holder.
    ///
    /// Giving out a handle number needs room in the counter.
    pub fn register(&mut self, path: &[u8], alive: bool) -> (outcome: Registration)
        requires
            old(self)@.live(path@, alive) is None ==> old(self)@.issued < u64::MAX,
        ensures
            (final(self)@, outcome) == old(self)@.registered(path@, alive),
            old(self)@.valid() ==> final(self)@.valid(),
    {
        let candidate = table_get(&self.table, path);
        match candidate {
            Some(id) if alive => Registration::Existing { id },
            _ => {
                let id = self.issued;
                self.issued = id + 1;
                let replaced = table_insert(&mut self.table, path, id);
                Registration::Fresh { id, replaced }
            },
        }
    }
}

/// Sweeps the entry of `path`: removes it if its handle has no holder left.
/// `alive` says whether the handle registered under `path`, if any, still has
/// a holder. Returns the handle whose entry was removed, if one was.
pub fn collect(registry: &mut HandleRegistry, path: &[u8], alive: bool) -> (removed: Option<u64>)
    ensures
        final(registry)@ == old(registry)@.swept(path@, alive),
        old(registry)@.valid() ==> final(registry)@.valid(),
        removed == old(registry)@.live(path@, !alive),
{
    if alive {
        None
    } else {
        table_remove(&mut registry.table, path)
    }
}

} // verus!
