//! The in-memory backend: tables in a concurrent map, each table a
//! concurrent map of its own.
//!
//! The maps are `dashmap::DashMap`s, which the verifier does not look into.
//! What they hold is named by [`store_tables`], and each call into them goes
//! through a small function whose contract is taken on trust from the map's
//! documentation. Those functions take the map of tables exclusively where
//! they change it, so that the contract can say what it held before and what
//! it holds after. Everything above them is proved.

use crate::error::KvError;
use crate::storage::{
    after_del, after_set, empty_store, entry_views, lists, lookup, pair_views, table_of,
    with_table, Storage, StoreView,
};
use crate::value::{view_of, Kvpair, Value};
use dashmap::DashMap;
use vstd::prelude::*;

verus! {

/// `dashmap::DashMap`, opaque to the verifier.
#[verifier::external_type_specification]
#[verifier::external_body]
#[verifier::reject_recursive_types(K)]
#[verifier::reject_recursive_types(V)]
#[verifier::reject_recursive_types(S)]
pub struct ExDashMap<K, V, S>(DashMap<K, V, S>);

/// The tables that a map of tables holds, by name, each with its keys and
/// values.
pub uninterp spec fn store_tables(tables: DashMap<String, DashMap<String, Value>>) -> StoreView;

/// An in-memory store. It owns its tables: a clone is a second store with
/// tables of its own.
#[derive(Debug)]
pub struct MemTable {
    tables: DashMap<String, DashMap<String, Value>>,
}

impl View for MemTable {
    type V = StoreView;

    closed spec fn view(&self) -> StoreView {
        store_tables(self.tables)
    }
}

/// `DashMap::default`: the new map holds no table.
#[verifier::external_body]
fn no_tables() -> (tables: DashMap<String, DashMap<String, Value>>)
    ensures
        store_tables(tables) == empty_store(),
{
    DashMap::default()
}

/// `DashMap::clone` on the map of tables: the copy holds the same tables,
/// with the same keys and values.
#[verifier::external_body]
fn copy_tables(tables: &DashMap<String, DashMap<String, Value>>) -> (copy: DashMap<
    String,
    DashMap<String, Value>,
>)
    ensures
        store_tables(copy) == store_tables(*tables),
{
    tables.clone()
}

/// `DashMap::get` on the map of tables: whether it holds a table of this
/// name.
#[verifier::external_body]
fn has_table(tables: &DashMap<String, DashMap<String, Value>>, name: &str) -> (found: bool)
    ensures
        found == store_tables(*tables).dom().contains(name@),
{
    tables.get(name).is_some()
}

/// `DashMap::entry` and `Entry::or_default` on the map of tables: a table of
/// this name that is there stays as it is; otherwise an empty one is added.
/// No other table changes.
#[verifier::external_body]
fn add_table(tables: &mut DashMap<String, DashMap<String, Value>>, name: &str)
    ensures
        store_tables(*final(tables)) == with_table(store_tables(*old(tables)), name@),
{
    tables.entry(name.into()).or_default();
}

/// `DashMap::get` on the map of tables for the table `name`, then
/// `DashMap::get` on that table, with `Ref::value` cloned: the value under
/// `key`, if the table holds one.
#[verifier::external_body]
fn table_get(tables: &DashMap<String, DashMap<String, Value>>, name: &str, key: &str) -> (found:
    Option<Value>)
    requires
        store_tables(*tables).dom().contains(name@),
    ensures
        view_of(found) == lookup(store_tables(*tables), name@, key@),
{
    let table = tables.get(name).unwrap();
    table.get(key).map(|v| v.value().clone())
}

/// `DashMap::get` on the map of tables for the table `name`, then
/// `DashMap::insert` on that table: `value` now stands under `key`, and what
/// stood there before is returned. Nothing else changes.
#[verifier::external_body]
fn table_insert(
    tables: &mut DashMap<String, DashMap<String, Value>>,
    name: &str,
    key: String,
    value: Value,
) -> (prev: Option<Value>)
    requires
        store_tables(*old(tables)).dom().contains(name@),
    ensures
        view_of(prev) == lookup(store_tables(*old(tables)), name@, key@),
        store_tables(*final(tables)) == after_set(store_tables(*old(tables)), name@, key@, value@),
{
    let table = tables.get(name).unwrap();
    table.insert(key, value)
}

/// `DashMap::get` on the map of tables for the table `name`, then
/// `DashMap::contains_key` on that table: whether it holds `key`.
#[verifier::external_body]
fn table_contains(tables: &DashMap<String, DashMap<String, Value>>, name: &str, key: &str) -> (found:
    bool)
    requires
        store_tables(*tables).dom().contains(name@),
    ensures
        found == lookup(store_tables(*tables), name@, key@).is_some(),
{
    let table = tables.get(name).unwrap();
    table.contains_key(key)
}

/// `DashMap::get` on the map of tables for the table `name`, then
/// `DashMap::remove` on that table: `key` is gone from it, and the value it
/// had is returned. Nothing else changes.
#[verifier::external_body]
fn table_remove(tables: &mut DashMap<String, DashMap<String, Value>>, name: &str, key: &str) -> (gone:
    Option<Value>)
    requires
        store_tables(*old(tables)).dom().contains(name@),
    ensures
        view_of(gone) == lookup(store_tables(*old(tables)), name@, key@),
        store_tables(*final(tables)) == after_del(store_tables(*old(tables)), name@, key@),
{
    let table = tables.get(name).unwrap();
    table.remove(key).map(|(_k, v)| v)
}

/// `DashMap::get` on the map of tables for the table `name`, then
/// `DashMap::iter` on that table, with the key and the value of each entry
/// cloned: every entry of the table, each once. The order is that in which
/// the map is walked, of which nothing is claimed.
#[verifier::external_body]
fn table_entries(tables: &DashMap<String, DashMap<String, Value>>, name: &str) -> (entries: Vec<
    (String, Value),
>)
    requires
        store_tables(*tables).dom().contains(name@),
    ensures
        lists(entry_views(entries@), table_of(store_tables(*tables), name@)),
{
    let table = tables.get(name).unwrap();
    table.iter().map(|e| (e.key().clone(), e.value().clone())).collect()
}

impl Clone for MemTable {
    /// A second store that holds what this one holds.
    fn clone(&self) -> (copy: MemTable)
        ensures
            copy@ == self@,
    {
        MemTable { tables: copy_tables(&self.tables) }
    }
}

impl Default for MemTable {
    /// An empty store.
    fn default() -> (store: MemTable)
        ensures
            store@ == empty_store(),
    {
        MemTable { tables: no_tables() }
    }
}

impl MemTable {
    /// An empty store: it holds no table, and every key of every table reads
    /// as absent.
    pub fn new() -> (store: MemTable)
        ensures
            store@ == empty_store(),
    {
        Self::default()
    }

    /// Resolves a table, as every operation does first: one of this name
    /// that exists is left alone, and costs only a lookup; otherwise an empty
    /// one is created. No other table changes, and none is lost.
    fn get_or_create_table(&mut self, table_name: &str)
        ensures
            final(self)@ == with_table(old(self)@, table_name@),
            final(self)@.dom().contains(table_name@),
            old(self)@.dom().contains(table_name@) ==> final(self)@ == old(self)@,
    {
        if !has_table(&self.tables, table_name) {
            add_table(&mut self.tables, table_name);
        } else {
            assert(with_table(self@, table_name@) =~= self@);
        }
    }
}

impl Storage for MemTable {
    open spec fn tables(&self) -> StoreView {
        self@
    }

    /// Never fails. The table is resolved first, so it exists afterwards.
    fn get(&mut self, table: &str, key: &str) -> (r: Result<Option<Value>, KvError>)
        ensures
            r is Ok,
            final(self)@ == with_table(old(self)@, table@),
    {
        self.get_or_create_table(table);
        Ok(table_get(&self.tables, table, key))
    }

    /// Never fails. The table is resolved first, so a first write creates it.
    fn set(&mut self, table: &str, key: String, value: Value) -> (r: Result<Option<Value>, KvError>)
        ensures
            r is Ok,
            final(self)@ == after_set(old(self)@, table@, key@, value@),
    {
        self.get_or_create_table(table);
        Ok(table_insert(&mut self.tables, table, key, value))
    }

    /// Never fails. The table is resolved first, so it exists afterwards.
    fn contains(&mut self, table: &str, key: &str) -> (r: Result<bool, KvError>)
        ensures
            r is Ok,
            final(self)@ == with_table(old(self)@, table@),
    {
        self.get_or_create_table(table);
        Ok(table_contains(&self.tables, table, key))
    }

    /// Never fails. The table stays, empty if this was its last key.
    fn del(&mut self, table: &str, key: &str) -> (r: Result<Option<Value>, KvError>)
        ensures
            r is Ok,
            final(self)@ == after_del(old(self)@, table@, key@),
    {
        self.get_or_create_table(table);
        Ok(table_remove(&mut self.tables, table, key))
    }

    /// Never fails. The pairs are collected while the call runs: the result
    /// is a snapshot, and later writes do not show in it.
    fn get_iter(&mut self, table: &str) -> (r: Result<Vec<Kvpair>, KvError>)
        ensures
            r is Ok,
            final(self)@ == with_table(old(self)@, table@),
    {
        self.get_or_create_table(table);
        let entries = table_entries(&self.tables, table);
        let ghost listed = entry_views(entries@);
        let mut pairs: Vec<Kvpair> = Vec::new();
        for entry in it: entries
            invariant
                pairs.len() == it.index(),
                it.seq().len() == listed.len(),
                forall|j: int|
                    0 <= j < it.seq().len() ==> listed[j] == (it.seq()[j].0@, it.seq()[j].1@),
                forall|j: int| 0 <= j < pairs.len() ==> (#[trigger] pairs[j])@ == listed[j],
        {
            let (key, value) = entry;
            pairs.push(Kvpair::new(key, value));
        }
        assert(pair_views(pairs@) =~= listed);
        Ok(pairs)
    }
}

} // verus!
