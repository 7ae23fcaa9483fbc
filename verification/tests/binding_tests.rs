use cql_bind::{
    BindRustType, CassError, DataType, Inet, ListHandle, MapHandle, ParameterAddress,
    PreparedStatement, SetHandle, Statement, TupleHandle, TypedValue, UserTypeHandle, Uuid,
};

fn prepared_two(key: &str, val: &str) -> PreparedStatement {
    PreparedStatement::with_metadata(vec![
        (String::from(key), DataType::Text),
        (String::from(val), DataType::Int),
    ])
    .unwrap()
}

#[test]
fn bind_by_name_on_adhoc_always_fails_with_addressing_error() {
    let mut s = Statement::new("SELECT * FROM t WHERE k = ?", 1).unwrap();
    assert_eq!(s.bind_int32_by_name("k", 5), Err(CassError::NameNotFound));
    assert_eq!(s.bind_null_by_name("anything"), Err(CassError::NameNotFound));
    assert_eq!(s.bind_bool_by_name("", true), Err(CassError::NameNotFound));
}

#[test]
fn bind_by_name_fills_every_slot_with_that_name() {
    let p = PreparedStatement::with_metadata(vec![
        (String::from("k"), DataType::Int),
        (String::from("v"), DataType::Int),
        (String::from("k"), DataType::Int),
    ])
    .unwrap();
    let mut s = p.bind();
    s.bind_int32_by_name("k", 9).unwrap();
    assert_eq!(*s.bound_value(0).unwrap(), Some(TypedValue::Int32(9)));
    assert_eq!(*s.bound_value(1).unwrap(), None);
    assert_eq!(*s.bound_value(2).unwrap(), Some(TypedValue::Int32(9)));
}

#[test]
fn bind_by_unknown_name_fails_and_changes_nothing() {
    let p = prepared_two("key", "val");
    let mut s = p.bind();
    assert_eq!(s.bind_int32_by_name("missing", 5), Err(CassError::NameNotFound));
    assert_eq!(*s.bound_value(0).unwrap(), None);
    assert_eq!(*s.bound_value(1).unwrap(), None);
}

#[test]
fn bind_by_name_rejects_embedded_terminator() {
    let p = prepared_two("key", "val");
    let mut s = p.bind();
    assert_eq!(s.bind_int32_by_name("ke\0y", 5), Err(CassError::InvalidText));
}

#[test]
fn round_trip_bool() {
    let mut s = Statement::new("INSERT INTO t (a) VALUES (?)", 1).unwrap();
    s.bind_bool(0, true).unwrap();
    assert_eq!(*s.bound_value(0).unwrap(), Some(TypedValue::Bool(true)));
}

#[test]
fn round_trip_int64() {
    let mut s = Statement::new("INSERT INTO t (a) VALUES (?)", 1).unwrap();
    s.bind_int64(0, -9_007_199_254_740_993i64).unwrap();
    match s.bound_value(0).unwrap() {
        Some(TypedValue::Int64(v)) => assert_eq!(*v, -9_007_199_254_740_993i64),
        other => panic!("unexpected slot contents: {:?}", other),
    }
}

#[test]
fn round_trip_double_bits() {
    let mut s = Statement::new("INSERT INTO t (a) VALUES (?)", 1).unwrap();
    let original: f64 = 0.0002f64;
    s.bind_double(0, original.to_bits()).unwrap();
    match s.bound_value(0).unwrap() {
        Some(TypedValue::DoubleBits(bits)) => assert_eq!(f64::from_bits(*bits), original),
        other => panic!("unexpected slot contents: {:?}", other),
    }
}

#[test]
fn round_trip_float_bits() {
    let mut s = Statement::new("INSERT INTO t (a) VALUES (?)", 1).unwrap();
    let original: f32 = 0.001f32;
    s.bind_float(0, original.to_bits()).unwrap();
    match s.bound_value(0).unwrap() {
        Some(TypedValue::FloatBits(bits)) => assert_eq!(f32::from_bits(*bits), original),
        other => panic!("unexpected slot contents: {:?}", other),
    }
}

#[test]
fn round_trip_non_ascii_text() {
    let mut s = Statement::new("INSERT INTO t (a) VALUES (?)", 1).unwrap();
    s.bind_string(0, "héllo wörld — 你好").unwrap();
    match s.bound_value(0).unwrap() {
        Some(TypedValue::Text(t)) => assert_eq!(t, "héllo wörld — 你好"),
        other => panic!("unexpected slot contents: {:?}", other),
    }
}

#[test]
fn round_trip_empty_bytes() {
    let mut s = Statement::new("INSERT INTO t (a) VALUES (?)", 1).unwrap();
    s.bind_bytes(0, Vec::new()).unwrap();
    match s.bound_value(0).unwrap() {
        Some(TypedValue::Bytes(b)) => assert!(b.is_empty()),
        other => panic!("unexpected slot contents: {:?}", other),
    }
}

#[test]
fn round_trip_uuid() {
    let mut s = Statement::new("INSERT INTO t (a) VALUES (?)", 1).unwrap();
    let u = Uuid { time_and_version: 0x1122334455667788, clock_seq_and_node: 0x99aabbccddeeff00 };
    s.bind_uuid(0, u).unwrap();
    assert_eq!(*s.bound_value(0).unwrap(), Some(TypedValue::Uuid(u)));
}

#[test]
fn round_trip_null_and_remaining_kinds() {
    let mut s = Statement::new("INSERT INTO t VALUES (?, ?, ?, ?, ?, ?, ?, ?, ?, ?)", 10).unwrap();
    s.bind_null(0).unwrap();
    s.bind_int8(1, -8).unwrap();
    s.bind_int16(2, -1600).unwrap();
    s.bind_uint32(3, 4_000_000_000u32).unwrap();
    s.bind_inet(4, Inet { octets: vec![127, 0, 0, 1] }).unwrap();
    s.bind_map(5, MapHandle { id: 51 }).unwrap();
    s.bind_set(6, SetHandle { id: 61 }).unwrap();
    s.bind_list(7, ListHandle { id: 71 }).unwrap();
    s.bind_tuple(8, TupleHandle { id: 81 }).unwrap();
    s.bind_user_type(9, UserTypeHandle { id: 91 }).unwrap();
    assert_eq!(*s.bound_value(0).unwrap(), Some(TypedValue::Null));
    assert_eq!(*s.bound_value(1).unwrap(), Some(TypedValue::Int8(-8)));
    assert_eq!(*s.bound_value(2).unwrap(), Some(TypedValue::Int16(-1600)));
    assert_eq!(*s.bound_value(3).unwrap(), Some(TypedValue::Uint32(4_000_000_000u32)));
    assert_eq!(
        *s.bound_value(4).unwrap(),
        Some(TypedValue::Inet(Inet { octets: vec![127, 0, 0, 1] }))
    );
    assert_eq!(*s.bound_value(5).unwrap(), Some(TypedValue::MapVal(MapHandle { id: 51 })));
    assert_eq!(*s.bound_value(6).unwrap(), Some(TypedValue::SetVal(SetHandle { id: 61 })));
    assert_eq!(*s.bound_value(7).unwrap(), Some(TypedValue::ListVal(ListHandle { id: 71 })));
    assert_eq!(*s.bound_value(8).unwrap(), Some(TypedValue::TupleVal(TupleHandle { id: 81 })));
    assert_eq!(
        *s.bound_value(9).unwrap(),
        Some(TypedValue::UserTypeVal(UserTypeHandle { id: 91 }))
    );
}

#[test]
fn text_with_embedded_terminator_is_an_encoding_error() {
    let mut s = Statement::new("INSERT INTO t (a) VALUES (?)", 1).unwrap();
    assert_eq!(s.bind_string(0, "a\0b"), Err(CassError::ValueEncoding));
    assert_eq!(*s.bound_value(0).unwrap(), None);
}

#[test]
fn inet_with_bad_octet_count_is_an_encoding_error() {
    let mut s = Statement::new("INSERT INTO t (a) VALUES (?)", 1).unwrap();
    assert_eq!(
        s.bind_inet(0, Inet { octets: vec![1, 2, 3] }),
        Err(CassError::ValueEncoding)
    );
    let sixteen = Inet { octets: vec![0; 16] };
    assert!(s.bind_inet(0, sixteen).is_ok());
}

#[test]
fn every_by_name_binder_reaches_its_slot() {
    let p = PreparedStatement::with_metadata(vec![
        (String::from("a"), DataType::Tinyint),
        (String::from("b"), DataType::Smallint),
        (String::from("c"), DataType::Date),
        (String::from("d"), DataType::Float),
        (String::from("e"), DataType::Double),
        (String::from("f"), DataType::Blob),
        (String::from("g"), DataType::Uuid),
        (String::from("h"), DataType::Inet),
        (String::from("i"), DataType::MapType),
        (String::from("j"), DataType::SetType),
        (String::from("k"), DataType::ListType),
        (String::from("l"), DataType::TupleType),
        (String::from("m"), DataType::UdtType),
        (String::from("n"), DataType::Text),
        (String::from("o"), DataType::Boolean),
    ])
    .unwrap();
    let mut s = p.bind();
    s.bind_int8_by_name("a", 1).unwrap();
    s.bind_int16_by_name("b", 2).unwrap();
    s.bind_uint32_by_name("c", 3).unwrap();
    s.bind_float_by_name("d", 4u32).unwrap();
    s.bind_double_by_name("e", 5u64).unwrap();
    s.bind_bytes_by_name("f", vec![6]).unwrap();
    let u = Uuid { time_and_version: 7, clock_seq_and_node: 7 };
    s.bind_uuid_by_name("g", u).unwrap();
    s.bind_inet_by_name("h", Inet { octets: vec![8, 8, 8, 8] }).unwrap();
    s.bind_map_by_name("i", MapHandle { id: 9 }).unwrap();
    s.bind_set_by_name("j", SetHandle { id: 10 }).unwrap();
    s.bind_list_by_name("k", ListHandle { id: 11 }).unwrap();
    s.bind_tuple_by_name("l", TupleHandle { id: 12 }).unwrap();
    s.bind_user_type_by_name("m", UserTypeHandle { id: 13 }).unwrap();
    s.bind_string_by_name("n", "fourteen").unwrap();
    s.bind_bool_by_name("o", false).unwrap();
    s.bind_null_by_name("a").unwrap();
    assert_eq!(*s.bound_value(0).unwrap(), Some(TypedValue::Null));
    assert_eq!(*s.bound_value(1).unwrap(), Some(TypedValue::Int16(2)));
    assert_eq!(*s.bound_value(2).unwrap(), Some(TypedValue::Uint32(3)));
    assert_eq!(*s.bound_value(3).unwrap(), Some(TypedValue::FloatBits(4)));
    assert_eq!(*s.bound_value(4).unwrap(), Some(TypedValue::DoubleBits(5)));
    assert_eq!(*s.bound_value(5).unwrap(), Some(TypedValue::Bytes(vec![6])));
    assert_eq!(*s.bound_value(6).unwrap(), Some(TypedValue::Uuid(u)));
    assert_eq!(
        *s.bound_value(7).unwrap(),
        Some(TypedValue::Inet(Inet { octets: vec![8, 8, 8, 8] }))
    );
    assert_eq!(*s.bound_value(8).unwrap(), Some(TypedValue::MapVal(MapHandle { id: 9 })));
    assert_eq!(*s.bound_value(9).unwrap(), Some(TypedValue::SetVal(SetHandle { id: 10 })));
    assert_eq!(*s.bound_value(10).unwrap(), Some(TypedValue::ListVal(ListHandle { id: 11 })));
    assert_eq!(*s.bound_value(11).unwrap(), Some(TypedValue::TupleVal(TupleHandle { id: 12 })));
    assert_eq!(
        *s.bound_value(12).unwrap(),
        Some(TypedValue::UserTypeVal(UserTypeHandle { id: 13 }))
    );
    match s.bound_value(13).unwrap() {
        Some(TypedValue::Text(t)) => assert_eq!(t, "fourteen"),
        other => panic!("unexpected slot contents: {:?}", other),
    }
    assert_eq!(*s.bound_value(14).unwrap(), Some(TypedValue::Bool(false)));
}

#[test]
fn addressed_bind_dispatches_on_both_modes() {
    let p = prepared_two("key", "val");
    let mut s = p.bind();
    s.bind_addressed(&ParameterAddress::Position(0), TypedValue::Int32(1)).unwrap();
    s.bind_addressed(&ParameterAddress::Name(String::from("val")), TypedValue::Int32(2)).unwrap();
    assert_eq!(*s.bound_value(0).unwrap(), Some(TypedValue::Int32(1)));
    assert_eq!(*s.bound_value(1).unwrap(), Some(TypedValue::Int32(2)));
    assert_eq!(
        s.bind_addressed(&ParameterAddress::Position(2), TypedValue::Null),
        Err(CassError::IndexOutOfRange)
    );
    assert_eq!(
        s.bind_addressed(&ParameterAddress::Name(String::from("zzz")), TypedValue::Null),
        Err(CassError::NameNotFound)
    );
}

#[test]
fn empty_template_yields_zero_slot_statement() {
    let p = PreparedStatement::with_metadata(Vec::new()).unwrap();
    assert_eq!(p.parameter_count(), 0);
    let mut s = p.bind();
    assert_eq!(s.parameter_count(), 0);
    assert_eq!(s.bind_null(0), Err(CassError::IndexOutOfRange));
}

#[test]
fn generic_bind_matches_per_kind_binders() {
    let p = prepared_two("key", "val");
    let mut s = p.bind();
    BindRustType::<&str>::bind(&mut s, 0, "hello").unwrap();
    BindRustType::<i64>::bind_by_name(&mut s, "val", 42).unwrap();
    match s.bound_value(0).unwrap() {
        Some(TypedValue::Text(t)) => assert_eq!(t, "hello"),
        other => panic!("unexpected slot contents: {:?}", other),
    }
    assert_eq!(*s.bound_value(1).unwrap(), Some(TypedValue::Int64(42)));

    let mut t = Statement::new("INSERT INTO t VALUES (?, ?, ?, ?, ?)", 5).unwrap();
    t.bind(0, true).unwrap();
    t.bind(1, 7i32).unwrap();
    t.bind(2, Uuid { time_and_version: 1, clock_seq_and_node: 2 }).unwrap();
    t.bind(3, SetHandle { id: 3 }).unwrap();
    t.bind(4, MapHandle { id: 4 }).unwrap();
    assert_eq!(*t.bound_value(0).unwrap(), Some(TypedValue::Bool(true)));
    assert_eq!(*t.bound_value(1).unwrap(), Some(TypedValue::Int32(7)));
}
