use simplekvs::{KvError, Kvpair, MemTable, Storage, Value};

fn test_basic_interface(mut store: impl Storage) {
    // the first write to a table creates the table, inserts the pair, and returns None
    let v = store.set("t1", "hello".into(), "world".into());
    assert!(v.unwrap().is_none());

    // a new value under the same key returns the previous value
    let v1 = store.set("t1", "hello".into(), "today".into());
    assert_eq!(v1, Ok(Some("world".into())));

    // the latest value is read back
    let v = store.get("t1", "hello");
    assert_eq!(v, Ok(Some("today".into())));

    // None for a table or a key that does not exist
    assert_eq!(Ok(None), store.get("t1", "hello1"));
    assert!(store.get("t2", "hello1").unwrap().is_none());

    // true if the table holds the key, false otherwise
    assert_eq!(store.contains("t1", "hello"), Ok(true));
    assert_eq!(store.contains("t1", "hello1"), Ok(false));
    assert_eq!(store.contains("t2", "hello"), Ok(false));

    // delete a key that exists
    let v = store.del("t1", "hello");
    assert_eq!(v, Ok(Some("today".into())));
    assert_eq!(store.contains("t1", "hello"), Ok(false));
}

fn test_get_iter(mut store: impl Storage) {
    store.set("t2", "k1".into(), "v1".into()).unwrap();
    store.set("t2", "k2".into(), "v2".into()).unwrap();
    let mut data: Vec<_> = store.get_iter("t2").unwrap();
    data.sort_by(|a, b| a.partial_cmp(b).unwrap());
    assert_eq!(
        data,
        vec![
            Kvpair::new("k1".into(), "v1".into()),
            Kvpair::new("k2".into(), "v2".into())
        ]
    )
}

#[test]
fn memtable_basic_interface_should_work() {
    let store = MemTable::new();
    test_basic_interface(store);
}

#[test]
fn memtable_get_iter_should_work() {
    let store = MemTable::new();
    test_get_iter(store);
}

#[test]
fn scenario_of_one_key() {
    let mut store = MemTable::new();
    assert_eq!(store.set("t1", "hello".into(), "world".into()), Ok(None));
    assert_eq!(
        store.set("t1", "hello".into(), "today".into()),
        Ok(Some(Value::Text("world".to_string())))
    );
    assert_eq!(
        store.get("t1", "hello"),
        Ok(Some(Value::Text("today".to_string())))
    );
    assert_eq!(store.get("t1", "nope"), Ok(None));
    assert_eq!(store.contains("t1", "hello"), Ok(true));
    assert_eq!(
        store.del("t1", "hello"),
        Ok(Some(Value::Text("today".to_string())))
    );
    assert_eq!(store.contains("t1", "hello"), Ok(false));
}

#[test]
fn unset_key_reads_absent() {
    let mut store = MemTable::new();
    store.set("t", "other".into(), Value::Integer(1)).unwrap();
    assert_eq!(store.get("t", "k"), Ok(None));
    assert_eq!(store.contains("t", "k"), Ok(false));
    assert_eq!(store.del("t", "k"), Ok(None));
    // the delete took nothing away
    assert_eq!(
        store.get_iter("t"),
        Ok(vec![Kvpair::new("other".into(), Value::Integer(1))])
    );
}

#[test]
fn missing_table_reads_as_empty() {
    let mut store = MemTable::new();
    assert_eq!(store.get("nowhere", "k"), Ok(None));
    assert_eq!(store.contains("nowhere", "k"), Ok(false));
    assert_eq!(store.del("nowhere", "k"), Ok(None));
    assert_eq!(store.get_iter("nowhere"), Ok(vec![]));
    assert_eq!(store.get_iter("never seen"), Ok(vec![]));
}

#[test]
fn second_set_returns_first_value() {
    let mut store = MemTable::new();
    assert_eq!(store.set("t", "k".into(), Value::Integer(1)), Ok(None));
    assert_eq!(
        store.set("t", "k".into(), Value::Integer(2)),
        Ok(Some(Value::Integer(1)))
    );
    assert_eq!(store.get("t", "k"), Ok(Some(Value::Integer(2))));
}

#[test]
fn set_then_del_leaves_key_absent() {
    let mut store = MemTable::new();
    store.set("t", "k".into(), Value::Bool(true)).unwrap();
    assert_eq!(store.del("t", "k"), Ok(Some(Value::Bool(true))));
    assert_eq!(store.get("t", "k"), Ok(None));
    assert_eq!(store.contains("t", "k"), Ok(false));
    assert_eq!(store.get_iter("t"), Ok(vec![]));
    // the key can be written again as if it were new
    assert_eq!(store.set("t", "k".into(), Value::Bool(false)), Ok(None));
}

#[test]
fn del_is_idempotent() {
    let mut store = MemTable::new();
    store.set("t", "k".into(), Value::Integer(7)).unwrap();
    assert_eq!(store.del("t", "k"), Ok(Some(Value::Integer(7))));
    assert_eq!(store.del("t", "k"), Ok(None));
    assert_eq!(store.del("t", "k"), Ok(None));
    assert_eq!(store.del("t", "k"), Ok(None));
}

#[test]
fn contains_is_stable() {
    let mut store = MemTable::new();
    store.set("t", "k".into(), Value::Integer(7)).unwrap();
    assert_eq!(store.contains("t", "k"), Ok(true));
    assert_eq!(store.contains("t", "k"), Ok(true));
    assert_eq!(store.contains("t", "k"), Ok(true));
    assert_eq!(store.contains("t", "absent"), Ok(false));
    assert_eq!(store.contains("t", "absent"), Ok(false));
    assert_eq!(store.get("t", "k"), Ok(Some(Value::Integer(7))));
}

#[test]
fn tables_are_isolated() {
    let mut store = MemTable::new();
    store.set("t1", "k".into(), Value::Integer(1)).unwrap();
    assert_eq!(store.contains("t2", "k"), Ok(false));
    assert_eq!(store.get("t2", "k"), Ok(None));
    store.set("t2", "k".into(), Value::Integer(2)).unwrap();
    assert_eq!(store.get("t1", "k"), Ok(Some(Value::Integer(1))));
    assert_eq!(store.del("t2", "k"), Ok(Some(Value::Integer(2))));
    assert_eq!(store.get("t1", "k"), Ok(Some(Value::Integer(1))));
}

#[test]
fn keys_are_independent() {
    let mut store = MemTable::new();
    store.set("t", "a".into(), Value::Integer(1)).unwrap();
    store.set("t", "b".into(), Value::Integer(2)).unwrap();
    assert_eq!(store.del("t", "a"), Ok(Some(Value::Integer(1))));
    assert_eq!(store.get("t", "b"), Ok(Some(Value::Integer(2))));
    store.set("t", "a".into(), Value::Integer(3)).unwrap();
    assert_eq!(store.get("t", "b"), Ok(Some(Value::Integer(2))));
}

#[test]
fn no_write_is_lost() {
    let mut store = MemTable::new();
    for t in 0..8i64 {
        for k in 0..64i64 {
            let prev = store.set(&format!("table{}", t), format!("key{}", k), Value::Integer(t * 100 + k));
            assert_eq!(prev, Ok(None));
        }
    }
    for t in 0..8i64 {
        for k in 0..64i64 {
            assert_eq!(
                store.get(&format!("table{}", t), &format!("key{}", k)),
                Ok(Some(Value::Integer(t * 100 + k)))
            );
        }
        assert_eq!(store.get_iter(&format!("table{}", t)).unwrap().len(), 64);
    }
}

#[test]
fn iteration_yields_each_pair_once() {
    let mut store = MemTable::new();
    for k in 0..100i64 {
        store.set("t", format!("{:03}", k), Value::Integer(k)).unwrap();
    }
    store.set("t", "050".into(), Value::Integer(-50)).unwrap();
    store.del("t", "099").unwrap();
    let mut data = store.get_iter("t").unwrap();
    data.sort_by(|a, b| a.partial_cmp(b).unwrap());
    assert_eq!(data.len(), 99);
    for (i, pair) in data.iter().enumerate() {
        assert_eq!(pair.key, format!("{:03}", i));
        let expected = if i == 50 { -50 } else { i as i64 };
        assert_eq!(pair.value, Value::Integer(expected));
    }
}

#[test]
fn iteration_is_a_snapshot() {
    let mut store = MemTable::new();
    store.set("t", "k".into(), "v".into()).unwrap();
    let before = store.get_iter("t").unwrap();
    store.set("t", "k2".into(), "v2".into()).unwrap();
    store.del("t", "k").unwrap();
    assert_eq!(before, vec![Kvpair::new("k".into(), "v".into())]);
    assert_eq!(
        store.get_iter("t"),
        Ok(vec![Kvpair::new("k2".into(), "v2".into())])
    );
}

#[test]
fn emptied_table_still_reads_as_empty() {
    let mut store = MemTable::new();
    store.set("t", "k".into(), Value::Integer(1)).unwrap();
    store.del("t", "k").unwrap();
    assert_eq!(store.get_iter("t"), Ok(vec![]));
    assert_eq!(store.contains("t", "k"), Ok(false));
    assert_eq!(store.set("t", "k".into(), Value::Integer(2)), Ok(None));
    assert_eq!(store.get("t", "k"), Ok(Some(Value::Integer(2))));
}

#[test]
fn empty_names_are_names_like_any_other() {
    let mut store = MemTable::new();
    assert_eq!(store.set("", "".into(), Value::Integer(1)), Ok(None));
    assert_eq!(store.get("", ""), Ok(Some(Value::Integer(1))));
    assert_eq!(store.contains("", "k"), Ok(false));
    assert_eq!(store.contains("t", ""), Ok(false));
}

#[test]
fn every_kind_of_value_is_kept() {
    let mut store = MemTable::new();
    let values = vec![
        Value::Text("text".to_string()),
        Value::Binary(vec![0, 1, 255]),
        Value::Integer(i64::MIN),
        Value::Float(1.5f64.to_bits()),
        Value::Bool(true),
    ];
    for (i, v) in values.iter().enumerate() {
        assert_eq!(store.set("t", format!("k{}", i), v.clone()), Ok(None));
    }
    for (i, v) in values.iter().enumerate() {
        assert_eq!(store.get("t", &format!("k{}", i)), Ok(Some(v.clone())));
    }
    match store.get("t", "k3").unwrap() {
        Some(Value::Float(bits)) => assert_eq!(f64::from_bits(bits), 1.5),
        other => panic!("unexpected value {:?}", other),
    }
}

#[test]
fn default_store_is_empty() {
    let mut store = MemTable::default();
    assert_eq!(store.get("t", "k"), Ok(None));
    assert_eq!(store.get_iter("t"), Ok(vec![]));
}

#[test]
fn clone_has_tables_of_its_own() {
    let mut store = MemTable::new();
    store.set("t", "k".into(), Value::Integer(1)).unwrap();
    let mut copy = store.clone();
    assert_eq!(copy.get("t", "k"), Ok(Some(Value::Integer(1))));
    copy.set("t", "k".into(), Value::Integer(2)).unwrap();
    copy.set("u", "k".into(), Value::Integer(3)).unwrap();
    assert_eq!(store.get("t", "k"), Ok(Some(Value::Integer(1))));
    assert_eq!(store.contains("u", "k"), Ok(false));
    store.del("t", "k").unwrap();
    assert_eq!(copy.get("t", "k"), Ok(Some(Value::Integer(2))));
}

#[test]
fn value_conversions() {
    assert_eq!(Value::from("abc"), Value::Text("abc".to_string()));
    assert_eq!(Value::from("abc".to_string()), Value::Text("abc".to_string()));
    assert_eq!(Value::from(-3i64), Value::Integer(-3));
    let v: Value = "x".into();
    assert_eq!(v, Value::Text("x".to_string()));
}

#[test]
fn kvpair_holds_key_and_value() {
    let pair = Kvpair::new("k".to_string(), Value::Integer(9));
    assert_eq!(pair.key, "k");
    assert_eq!(pair.value, Value::Integer(9));
    assert_eq!(pair, Kvpair::new("k".to_string(), Value::Integer(9)));
    assert_ne!(pair, Kvpair::new("k".to_string(), Value::Integer(8)));
    assert!(Kvpair::new("a".to_string(), Value::Integer(9)) < pair);
}

#[test]
fn not_found_message() {
    let e = KvError::NotFound("t1".to_string(), "hello".to_string());
    assert_eq!(e.message(), "Not found for table: t1, key: hello");
}

#[test]
fn storage_error_message() {
    let e = KvError::StorageError("set", "t1".to_string(), "hello".to_string(), "disk full".to_string());
    assert_eq!(
        e.message(),
        "Cannot process command set with table: t1, key: hello. Error: disk full"
    );
    assert_ne!(e, KvError::NotFound("t1".to_string(), "hello".to_string()));
}
