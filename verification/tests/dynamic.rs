use rhai::any::{
    clone_values, find_entry, insert_entry, Dynamic, TYPE_ID_ARRAY, TYPE_ID_BOOL, TYPE_ID_CHAR,
    TYPE_ID_INT, TYPE_ID_MAP, TYPE_ID_STRING, TYPE_ID_UNIT,
};

#[test]
fn dynamic_type_identity_and_name() {
    assert_eq!(Dynamic::unit().type_id(), TYPE_ID_UNIT);
    assert_eq!(Dynamic::from_bool(true).type_id(), TYPE_ID_BOOL);
    assert_eq!(Dynamic::from_int(1).type_id(), TYPE_ID_INT);
    assert_eq!(Dynamic::from_char('c').type_id(), TYPE_ID_CHAR);
    assert_eq!(Dynamic::from_str("s").type_id(), TYPE_ID_STRING);
    assert_eq!(Dynamic::from_array(vec![]).type_id(), TYPE_ID_ARRAY);
    assert_eq!(Dynamic::ObjMap(vec![]).type_id(), TYPE_ID_MAP);
    assert_eq!(Dynamic::Custom(77, "Point".to_string(), vec![1, 2]).type_id(), 77);

    assert_eq!(Dynamic::unit().type_label(), "()");
    assert_eq!(Dynamic::from_bool(true).type_label(), "bool");
    assert_eq!(Dynamic::from_int(1).type_label(), "i64");
    assert_eq!(Dynamic::from_char('c').type_label(), "char");
    assert_eq!(Dynamic::from_string("s".to_string()).type_label(), "string");
    assert_eq!(Dynamic::from_array(vec![]).type_label(), "array");
    assert_eq!(Dynamic::ObjMap(vec![]).type_label(), "map");
    assert_eq!(Dynamic::Custom(77, "Point".to_string(), vec![]).type_label(), "Point");
}

#[test]
fn dynamic_is_and_as() {
    let i = Dynamic::from_int(5);
    assert!(i.is_int() && !i.is_bool() && !i.is_unit() && !i.is_char());
    assert!(!i.is_string() && !i.is_array() && !i.is_map());
    assert_eq!(i.as_int(), Ok(5));
    assert_eq!(i.as_bool(), Err("i64"));
    assert_eq!(i.as_char(), Err("i64"));
    assert_eq!(i.as_str(), Err("i64"));

    let s = Dynamic::from_str("abc");
    assert!(s.is_string());
    assert_eq!(s.as_str(), Ok("abc"));
    assert_eq!(s.as_int(), Err("string"));
    assert_eq!(s.take_string(), Ok("abc".to_string()));
    assert_eq!(Dynamic::from_bool(false).take_string(), Err("bool".to_string()));

    assert_eq!(Dynamic::from_bool(true).as_bool(), Ok(true));
    assert_eq!(Dynamic::from_char('x').as_char(), Ok('x'));
    assert!(Dynamic::unit().is_unit());
    assert!(Dynamic::from_array(vec![]).is_array());
    assert!(Dynamic::ObjMap(vec![]).is_map());
}

#[test]
fn dynamic_default_is_unit() {
    assert!(Dynamic::default().is_unit());
}

#[test]
fn dynamic_clone_is_deep() {
    let original = Dynamic::Array(vec![
        Dynamic::Int(1),
        Dynamic::ObjMap(vec![("k".to_string(), Dynamic::Str("v".to_string()))]),
        Dynamic::Custom(9, "T".to_string(), vec![7]),
    ]);
    let mut copy = original.clone();
    match &mut copy {
        Dynamic::Array(items) => items[0] = Dynamic::Int(2),
        _ => panic!("should be an array"),
    }
    match (&original, &copy) {
        (Dynamic::Array(a), Dynamic::Array(b)) => {
            assert_eq!(a.len(), 3);
            assert_eq!(b.len(), 3);
            assert!(matches!(a[0], Dynamic::Int(1)));
            assert!(matches!(b[0], Dynamic::Int(2)));
            match (&b[1], &b[2]) {
                (Dynamic::ObjMap(m), Dynamic::Custom(id, name, data)) => {
                    assert_eq!(m[0].0, "k");
                    assert_eq!(m[0].1.as_str(), Ok("v"));
                    assert_eq!((*id, name.as_str(), data.as_slice()), (9, "T", &[7u8][..]));
                }
                _ => panic!("should be a map and a host value"),
            }
        }
        _ => panic!("should be arrays"),
    }
    let copies = clone_values(&vec![Dynamic::Int(3), Dynamic::Bool(true)]);
    assert_eq!(copies.len(), 2);
    assert_eq!(copies[0].as_int(), Ok(3));
}

#[test]
fn object_map_entries() {
    let mut m: Vec<(String, Dynamic)> = vec![];
    insert_entry(&mut m, "a".to_string(), Dynamic::Int(1));
    insert_entry(&mut m, "b".to_string(), Dynamic::Int(2));
    insert_entry(&mut m, "a".to_string(), Dynamic::Int(3));
    assert_eq!(m.len(), 2);
    assert_eq!(find_entry(&m, "a"), Some(0));
    assert_eq!(find_entry(&m, "b"), Some(1));
    assert_eq!(find_entry(&m, "c"), None);
    assert_eq!(m[0].1.as_int(), Ok(3));
}
