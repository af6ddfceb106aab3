//! The contract every storage backend meets, stated over a model of the
//! store, and the laws that follow from it.

use crate::error::KvError;
use crate::value::{view_of, Kvpair, Value, ValueView};
use vstd::prelude::*;

pub mod laws;
pub mod memory;

verus! {

/// What a table holds: its keys, each with one value.
pub type TableView = Map<Seq<char>, ValueView>;

/// What a store holds: its tables, by name. A name that is not among them
/// reads as an empty table.
pub type StoreView = Map<Seq<char>, TableView>;

/// The store that holds no table.
pub open spec fn empty_store() -> StoreView {
    Map::empty()
}

/// The table `table` of `store`, empty where the store holds none of that
/// name.
pub open spec fn table_of(store: StoreView, table: Seq<char>) -> TableView {
    if store.dom().contains(table) {
        store[table]
    } else {
        Map::empty()
    }
}

/// The value under `key` in `table`, if there is one.
pub open spec fn lookup(store: StoreView, table: Seq<char>, key: Seq<char>) -> Option<ValueView> {
    if table_of(store, table).dom().contains(key) {
        Some(table_of(store, table)[key])
    } else {
        None
    }
}

/// The store once `table` has been resolved: an empty table has been added
/// under that name unless one was there.
pub open spec fn with_table(store: StoreView, table: Seq<char>) -> StoreView {
    store.insert(table, table_of(store, table))
}

/// The store once `key` in `table` has been set to `value`.
pub open spec fn after_set(
    store: StoreView,
    table: Seq<char>,
    key: Seq<char>,
    value: ValueView,
) -> StoreView {
    store.insert(table, table_of(store, table).insert(key, value))
}

/// The store once `key` in `table` has been deleted.
pub open spec fn after_del(store: StoreView, table: Seq<char>, key: Seq<char>) -> StoreView {
    store.insert(table, table_of(store, table).remove(key))
}

/// Two stores hold the same pairs in every table, whichever empty tables
/// each has or lacks.
pub open spec fn same_content(a: StoreView, b: StoreView) -> bool {
    forall|table: Seq<char>| #[trigger] table_of(a, table) == table_of(b, table)
}

/// The views of the pairs in `pairs`, in their order.
pub open spec fn pair_views(pairs: Seq<Kvpair>) -> Seq<(Seq<char>, ValueView)> {
    Seq::new(pairs.len(), |i: int| pairs[i]@)
}

/// The views of keys and values as a map hands them out, in their order.
pub open spec fn entry_views(entries: Seq<(String, Value)>) -> Seq<(Seq<char>, ValueView)> {
    Seq::new(entries.len(), |i: int| (entries[i].0@, entries[i].1@))
}

/// `pairs` lists `table`: every pair is an entry of the table, no key comes
/// twice, and every key of the table comes. The order is left open.
pub open spec fn lists(pairs: Seq<(Seq<char>, ValueView)>, table: TableView) -> bool {
    &&& forall|i: int|
        0 <= i < pairs.len() ==> table.dom().contains((#[trigger] pairs[i]).0) && table[pairs[i].0]
            == pairs[i].1
    &&& forall|i: int, j: int|
        0 <= i < j < pairs.len() ==> (#[trigger] pairs[i]).0 != (#[trigger] pairs[j]).0
    &&& forall|key: Seq<char>| #[trigger]
        table.dom().contains(key) ==> exists|i: int|
            0 <= i < pairs.len() && (#[trigger] pairs[i]).0 == key
}

/// Access to named tables of key/value pairs. A table needs no creating:
/// one that was never written reads as empty.
///
/// A backend may fail with its own error in place of any result. What each
/// method promises, it promises of the calls that succeed.
///
/// Every method takes the backend exclusively, the reading ones too: a
/// backend may create a table when it is first named, and the contracts
/// speak of the tables before and after each call.
pub trait Storage {
    /// The tables the backend holds.
    spec fn tables(&self) -> StoreView;

    /// The value under `key` in `table`, or `None` where there is none.
    /// What the tables hold does not change.
    fn get(&mut self, table: &str, key: &str) -> (r: Result<Option<Value>, KvError>)
        ensures
            r matches Ok(found) ==> view_of(found) == lookup(old(self).tables(), table@, key@),
            r is Ok ==> same_content(final(self).tables(), old(self).tables()),
    ;

    /// Puts `value` under `key` in `table`, whatever was there, and returns
    /// what was there. No other key and no other table changes.
    fn set(&mut self, table: &str, key: String, value: Value) -> (r: Result<Option<Value>, KvError>)
        ensures
            r matches Ok(prev) ==> view_of(prev) == lookup(old(self).tables(), table@, key@),
            r is Ok ==> same_content(
                final(self).tables(),
                after_set(old(self).tables(), table@, key@, value@),
            ),
    ;

    /// Whether `table` holds `key`. What the tables hold does not change.
    fn contains(&mut self, table: &str, key: &str) -> (r: Result<bool, KvError>)
        ensures
            r matches Ok(found) ==> found == lookup(old(self).tables(), table@, key@).is_some(),
            r is Ok ==> same_content(final(self).tables(), old(self).tables()),
    ;

    /// Takes `key` out of `table` and returns its value, or `None` where the
    /// table did not hold it. No other key and no other table changes.
    fn del(&mut self, table: &str, key: &str) -> (r: Result<Option<Value>, KvError>)
        ensures
            r matches Ok(gone) ==> view_of(gone) == lookup(old(self).tables(), table@, key@),
            r is Ok ==> same_content(
                final(self).tables(),
                after_del(old(self).tables(), table@, key@),
            ),
    ;

    /// Every pair of `table`, each once, in no promised order. What the
    /// tables hold does not change.
    fn get_iter(&mut self, table: &str) -> (r: Result<Vec<Kvpair>, KvError>)
        ensures
            r matches Ok(pairs) ==> lists(pair_views(pairs@), table_of(old(self).tables(), table@)),
            r is Ok ==> same_content(final(self).tables(), old(self).tables()),
    ;
}

} // verus!
