//! What holds of every store, whatever was done to it: the laws that relate
//! the operations to each other, proved over the model of the store.

use crate::storage::{
    after_del, after_set, empty_store, lists, lookup, same_content, table_of, with_table,
    StoreView, TableView,
};
use crate::value::ValueView;
use vstd::prelude::*;

verus! {

/// One call on a store.
pub enum Call {
    /// A `get`.
    Get { table: Seq<char>, key: Seq<char> },
    /// A `set`.
    Put { table: Seq<char>, key: Seq<char>, value: ValueView },
    /// A `contains`.
    Contains { table: Seq<char>, key: Seq<char> },
    /// A `del`.
    Del { table: Seq<char>, key: Seq<char> },
    /// A `get_iter`.
    Iterate { table: Seq<char> },
}

/// The store after `call`.
pub open spec fn apply(store: StoreView, call: Call) -> StoreView {
    match call {
        Call::Get { table, key } => with_table(store, table),
        Call::Put { table, key, value } => after_set(store, table, key, value),
        Call::Contains { table, key } => with_table(store, table),
        Call::Del { table, key } => after_del(store, table, key),
        Call::Iterate { table } => with_table(store, table),
    }
}

/// The store that `calls` leave, made one after the other on an empty store.
pub open spec fn replay(calls: Seq<Call>) -> StoreView
    decreases calls.len(),
{
    if calls.len() == 0 {
        empty_store()
    } else {
        apply(replay(calls.drop_last()), calls.last())
    }
}

/// `call` sets `key` in `table`.
pub open spec fn sets(call: Call, table: Seq<char>, key: Seq<char>) -> bool {
    call matches Call::Put { table: t, key: k, .. } && t == table && k == key
}

/// `call` writes: it is a set or a delete.
pub open spec fn writes(call: Call) -> bool {
    call is Put || call is Del
}

/// A key that no call has set is absent, whatever else was done to the
/// store: `get` finds nothing under it and `contains` says no.
pub proof fn law_unset_key_is_absent(calls: Seq<Call>, table: Seq<char>, key: Seq<char>)
    requires
        forall|i: int| 0 <= i < calls.len() ==> !sets(#[trigger] calls[i], table, key),
    ensures
        lookup(replay(calls), table, key) is None,
        !table_of(replay(calls), table).dom().contains(key),
    decreases calls.len(),
{
    if calls.len() > 0 {
        let before = calls.drop_last();
        assert forall|i: int| 0 <= i < before.len() implies !sets(#[trigger] before[i], table, key) by {
            assert(before[i] == calls[i]);
        }
        law_unset_key_is_absent(before, table, key);
        assert(!sets(calls[calls.len() - 1], table, key));
    }
}

/// Deleting a key that is absent returns nothing and changes no table's
/// keys or values.
pub proof fn law_del_of_absent_key(store: StoreView, table: Seq<char>, key: Seq<char>)
    requires
        lookup(store, table, key) is None,
    ensures
        table_of(after_del(store, table, key), table).dom() == table_of(store, table).dom(),
        same_content(after_del(store, table, key), store),
{
    assert(table_of(store, table).remove(key) =~= table_of(store, table));
}

/// A second `set` of a key returns the value that the first one wrote, and a
/// `get` after both returns the value of the second.
pub proof fn law_set_twice(
    store: StoreView,
    table: Seq<char>,
    key: Seq<char>,
    first: ValueView,
    second: ValueView,
)
    ensures
        lookup(after_set(store, table, key, first), table, key) == Some(first),
        lookup(after_set(after_set(store, table, key, first), table, key, second), table, key)
            == Some(second),
{
}

/// A `del` after a `set` returns the value that was set, and leaves the key
/// as if it had never been set: absent, and the store holding what it would
/// hold had the key only been deleted.
pub proof fn law_set_then_del(store: StoreView, table: Seq<char>, key: Seq<char>, value: ValueView)
    ensures
        lookup(after_set(store, table, key, value), table, key) == Some(value),
        lookup(after_del(after_set(store, table, key, value), table, key), table, key) is None,
        after_del(after_set(store, table, key, value), table, key) == after_del(
            store,
            table,
            key,
        ),
        lookup(store, table, key) is None ==> same_content(
            after_del(after_set(store, table, key, value), table, key),
            store,
        ),
{
    let twice = after_del(after_set(store, table, key, value), table, key);
    let once = after_del(store, table, key);
    assert(table_of(after_set(store, table, key, value), table).remove(key) =~= table_of(
        store,
        table,
    ).remove(key));
    assert(twice =~= once);
    if lookup(store, table, key) is None {
        law_del_of_absent_key(store, table, key);
    }
}

/// After a `del` the key is absent, so every further `del` of it returns
/// nothing and leaves the store as it is.
pub proof fn law_del_is_idempotent(store: StoreView, table: Seq<char>, key: Seq<char>)
    ensures
        lookup(after_del(store, table, key), table, key) is None,
        after_del(after_del(store, table, key), table, key) == after_del(store, table, key),
{
    let once = after_del(store, table, key);
    assert(table_of(once, table).remove(key) =~= table_of(once, table));
    assert(after_del(once, table, key) =~= once);
}

/// Calls that do not write leave every answer as it was: what `get` and
/// `contains` say of any table and key is the same before and after.
pub proof fn law_reads_are_stable(
    store: StoreView,
    call: Call,
    table: Seq<char>,
    key: Seq<char>,
)
    requires
        !writes(call),
    ensures
        lookup(apply(store, call), table, key) == lookup(store, table, key),
        same_content(apply(store, call), store),
        apply(apply(store, call), call) == apply(store, call),
{
    let after = apply(store, call);
    assert(apply(after, call) =~= after);
}

/// A write to one table shows in no other: after a `set` or a `del` in
/// `table`, every other table holds what it held.
pub proof fn law_tables_are_isolated(
    store: StoreView,
    table: Seq<char>,
    key: Seq<char>,
    value: ValueView,
    other: Seq<char>,
    other_key: Seq<char>,
)
    requires
        other != table,
    ensures
        table_of(after_set(store, table, key, value), other) == table_of(store, other),
        lookup(after_set(store, table, key, value), other, other_key) == lookup(
            store,
            other,
            other_key,
        ),
        table_of(after_del(store, table, key), other) == table_of(store, other),
        lookup(after_del(store, table, key), other, other_key) == lookup(store, other, other_key),
{
}

/// A write to one key shows under no other key of its table.
pub proof fn law_keys_are_independent(
    store: StoreView,
    table: Seq<char>,
    key: Seq<char>,
    value: ValueView,
    other_key: Seq<char>,
)
    requires
        other_key != key,
    ensures
        lookup(after_set(store, table, key, value), table, other_key) == lookup(
            store,
            table,
            other_key,
        ),
        lookup(after_del(store, table, key), table, other_key) == lookup(store, table, other_key),
{
}

/// The entries of `table` as a set of pairs.
pub open spec fn entries_of(table: TableView) -> Set<(Seq<char>, ValueView)> {
    Set::new(|pair: (Seq<char>, ValueView)| table.dom().contains(pair.0) && table[pair.0] == pair.1)
}

/// The keys of `pairs`, in their order.
pub open spec fn keys_of(pairs: Seq<(Seq<char>, ValueView)>) -> Seq<Seq<char>> {
    Seq::new(pairs.len(), |i: int| pairs[i].0)
}

/// Iteration is complete and exact: a listing of a table holds no pair
/// twice, holds exactly the table's entries, and is as long as the table has
/// keys. A table that can be listed is finite.
pub proof fn law_listing_is_complete(pairs: Seq<(Seq<char>, ValueView)>, table: TableView)
    requires
        lists(pairs, table),
    ensures
        pairs.no_duplicates(),
        pairs.to_set() == entries_of(table),
        table.dom().finite(),
        pairs.len() == table.dom().len(),
{
    assert forall|pair: (Seq<char>, ValueView)| entries_of(table).contains(pair) implies pairs.contains(
        pair,
    ) by {
        assert(table.dom().contains(pair.0));
        let i = choose|i: int| 0 <= i < pairs.len() && (#[trigger] pairs[i]).0 == pair.0;
        assert(pairs[i] == pair);
    }
    assert(pairs.to_set() =~= entries_of(table));
    let keys = keys_of(pairs);
    assert forall|key: Seq<char>| table.dom().contains(key) implies keys.contains(key) by {
        let i = choose|i: int| 0 <= i < pairs.len() && (#[trigger] pairs[i]).0 == key;
        assert(keys[i] == key);
    }
    assert forall|key: Seq<char>| keys.contains(key) implies table.dom().contains(key) by {
        let i = choose|i: int| 0 <= i < keys.len() && keys[i] == key;
        assert(pairs[i].0 == key);
    }
    assert(keys.to_set() =~= table.dom());
    assert(keys.no_duplicates()) by {
        assert forall|i: int, j: int| 0 <= i < keys.len() && 0 <= j < keys.len() && i != j implies keys[i]
            != keys[j] by {
            if i < j {
                assert(pairs[i].0 != pairs[j].0);
            } else {
                assert(pairs[j].0 != pairs[i].0);
            }
        }
    }
    vstd::seq_lib::seq_to_set_is_finite(keys);
    keys.unique_seq_to_set();
}

/// The table that `call` names.
pub open spec fn table_in(call: Call) -> Seq<char> {
    match call {
        Call::Get { table, key } => table,
        Call::Put { table, key, value } => table,
        Call::Contains { table, key } => table,
        Call::Del { table, key } => table,
        Call::Iterate { table } => table,
    }
}

/// No call takes a table away: a table that exists still exists after any
/// call, and the table that the call names exists after it, if only empty.
pub proof fn law_tables_persist(store: StoreView, call: Call, table: Seq<char>)
    ensures
        store.dom().contains(table) ==> apply(store, call).dom().contains(table),
        apply(store, call).dom().contains(table_in(call)),
{
}

} // verus!
