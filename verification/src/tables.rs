//! Hash tables keyed by item identifiers.
//!
//! The tables are `rustc_hash`'s aliases of the standard hash map and hash
//! set. What a table holds is named by a specification function; the
//! contracts of the functions below are taken on trust.

use rustc_hash::FxBuildHasher;
use rustc_hash::FxHashMap;
use rustc_hash::FxHashSet;
use vstd::prelude::*;

verus! {

/// `rustc_hash::FxBuildHasher`, the hasher factory of both table types.
/// Nothing is claimed about it.
#[verifier::external_type_specification]
#[verifier::external_body]
pub struct ExFxBuildHasher(FxBuildHasher);

/// The entries of a version table: for each key, read as its characters,
/// the version stored under it.
pub uninterp spec fn table_entries(table: FxHashMap<String, u64>) -> Map<Seq<char>, u64>;

/// The members of an identifier set, each read as its characters.
pub uninterp spec fn set_members(set: FxHashSet<String>) -> Set<Seq<char>>;

/// Calls `FxHashMap::default()`. Claimed: the new table has no entries.
#[verifier::external_body]
pub(crate) fn table_new() -> (table: FxHashMap<String, u64>)
    ensures
        table_entries(table) == (Map::<Seq<char>, u64>::empty()),
{
    FxHashMap::default()
}

/// Calls `HashMap::insert` on an `FxHashMap`. Claimed: afterwards the key
/// maps to the given version, whether or not it had an entry before, and
/// all other entries are as they were.
#[verifier::external_body]
pub(crate) fn table_insert(table: &mut FxHashMap<String, u64>, key: String, version: u64)
    ensures
        table_entries(*final(table)) == table_entries(*old(table)).insert(key@, version),
{
    table.insert(key, version);
}

/// Calls `HashMap::get` on an `FxHashMap`. Claimed: the result is the
/// version stored under the key, or `None` where the table has no entry
/// for it.
#[verifier::external_body]
pub(crate) fn table_get(table: &FxHashMap<String, u64>, key: &str) -> (found: Option<u64>)
    ensures
        found is Some <==> table_entries(*table).contains_key(key@),
        found is Some ==> found->0 == table_entries(*table)[key@],
{
    table.get(key).copied()
}

/// Calls `FxHashSet::default()`. Claimed: the new set has no members.
#[verifier::external_body]
pub(crate) fn set_new() -> (set: FxHashSet<String>)
    ensures
        set_members(set) == Set::<Seq<char>>::empty(),
{
    FxHashSet::default()
}

/// Calls `HashSet::insert` on an `FxHashSet`. Claimed: afterwards the
/// identifier is a member beside those that were, and the result tells
/// whether it was not one before.
#[verifier::external_body]
pub(crate) fn set_insert(set: &mut FxHashSet<String>, id: String) -> (fresh: bool)
    ensures
        set_members(*final(set)) == set_members(*old(set)).insert(id@),
        fresh == !set_members(*old(set)).contains(id@),
{
    set.insert(id)
}

/// Calls `HashSet::contains` on an `FxHashSet`. Claimed: the result tells
/// whether the identifier is a member.
#[verifier::external_body]
pub(crate) fn set_contains(set: &FxHashSet<String>, id: &str) -> (found: bool)
    ensures
        found == set_members(*set).contains(id@),
{
    set.contains(id)
}

} // verus!
