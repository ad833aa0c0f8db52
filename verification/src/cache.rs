//! The name cache: a map from hostname text to address.

use vstd::hash_map::StringHashMap;
use vstd::prelude::*;

verus! {

/// An address stored for a hostname.
#[derive(Clone, Copy, Debug, PartialEq, Eq)]
pub enum Address {
    /// An IPv4 address, as its four octets in network order.
    V4([u8; 4]),
    /// An IPv6 address, as its sixteen octets in network order.
    V6([u8; 16]),
}

/// The value that a map from names to addresses holds for `name`.
pub open spec fn lookup(table: Map<Seq<char>, Address>, name: Seq<char>) -> Option<Address> {
    if table.contains_key(name) {
        Some(table[name])
    } else {
        None
    }
}

/// A map from hostname text to address. Names are compared exactly as
/// written. An entry stays until it is overwritten.
pub struct NameCache {
    entries: StringHashMap<Address>,
}

impl View for NameCache {
    type V = Map<Seq<char>, Address>;

    closed spec fn view(&self) -> Map<Seq<char>, Address> {
        self.entries@
    }
}

impl NameCache {
    /// An empty cache.
    pub fn new() -> (cache: NameCache)
        ensures
            cache@ == Map::<Seq<char>, Address>::empty(),
    {
        NameCache { entries: StringHashMap::new() }
    }

    /// The address stored for `name`, if any.
    pub fn get(&self, name: &str) -> (found: Option<Address>)
        ensures
            found == lookup(self@, name@),
    {
        match self.entries.get(name) {
            Some(addr) => Some(*addr),
            None => None,
        }
    }

    /// Stores `addr` for `name`, replacing what was stored for it before.
    pub fn set(&mut self, name: String, addr: Address)
        ensures
            final(self)@ == old(self)@.insert(name@, addr),
    {
        self.entries.insert(name, addr);
    }
}

/// A name that was set is found with the address given last, whatever
/// the cache held before.
pub proof fn lemma_set_then_get(table: Map<Seq<char>, Address>, name: Seq<char>, addr: Address)
    ensures
        lookup(table.insert(name, addr), name) == Some(addr),
{
}

/// Of two writes to one name the later one stays: the earlier leaves no
/// trace in the cache.
pub proof fn lemma_last_write_wins(
    table: Map<Seq<char>, Address>,
    name: Seq<char>,
    first: Address,
    second: Address,
)
    ensures
        table.insert(name, first).insert(name, second) == table.insert(name, second),
        lookup(table.insert(name, first).insert(name, second), name) == Some(second),
{
    assert(table.insert(name, first).insert(name, second) =~= table.insert(name, second));
}

/// A write to one name changes the answer for no other name.
pub proof fn lemma_set_keeps_others(
    table: Map<Seq<char>, Address>,
    name: Seq<char>,
    addr: Address,
    other: Seq<char>,
)
    requires
        other != name,
    ensures
        lookup(table.insert(name, addr), other) == lookup(table, other),
{
}

/// A name that was never set is absent from a cache that started empty.
pub proof fn lemma_empty_has_none(name: Seq<char>)
    ensures
        lookup(Map::<Seq<char>, Address>::empty(), name) == None::<Address>,
{
}

} // verus!
