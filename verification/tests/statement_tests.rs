use cql_bind::{
    stmt, CassError, CassResult, Consistency, CustomPayload, RetryPolicy, Statement, TypedValue,
    PAGING_DISABLED,
};

#[test]
fn new_statement_has_declared_slot_count() {
    let s = Statement::new("SELECT * FROM t WHERE a = ? AND b = ?", 2).unwrap();
    assert!(s.is_live());
    assert_eq!(s.parameter_count(), 2);
}

#[test]
fn new_statement_rejects_embedded_terminator() {
    let r = Statement::new("SELECT \0 FROM t", 0);
    assert!(matches!(r, Err(CassError::InvalidText)));
}

#[test]
fn bind_in_range_succeeds_one_past_end_fails() {
    let mut s = Statement::new("INSERT INTO t (a, b, c) VALUES (?, ?, ?)", 3).unwrap();
    assert!(s.bind_int32(0, 1).is_ok());
    assert!(s.bind_int32(1, 2).is_ok());
    assert!(s.bind_int32(2, 3).is_ok());
    assert_eq!(s.bind_int32(3, 4), Err(CassError::IndexOutOfRange));
    assert_eq!(s.bind_int32(100, 5), Err(CassError::IndexOutOfRange));
}

#[test]
fn zero_parameter_statement_rejects_position_zero() {
    let mut s = Statement::new("SELECT * FROM t", 0).unwrap();
    assert_eq!(s.bind_null(0), Err(CassError::IndexOutOfRange));
}

#[test]
fn failed_bind_keeps_prior_slots() {
    let mut s = Statement::new("INSERT INTO t (a, b) VALUES (?, ?)", 2).unwrap();
    s.bind_int64(0, 7).unwrap();
    assert_eq!(s.bind_int64(2, 9), Err(CassError::IndexOutOfRange));
    assert_eq!(*s.bound_value(0).unwrap(), Some(TypedValue::Int64(7)));
    assert_eq!(*s.bound_value(1).unwrap(), None);
}

#[test]
fn bind_same_slot_twice_keeps_second_value() {
    let mut s = Statement::new("INSERT INTO t (a) VALUES (?)", 1).unwrap();
    s.bind_int32(0, 1).unwrap();
    s.bind_int32(0, 2).unwrap();
    assert_eq!(*s.bound_value(0).unwrap(), Some(TypedValue::Int32(2)));
}

#[test]
fn free_is_idempotent_and_leaves_other_statements_alone() {
    let mut a = Statement::new("SELECT * FROM t WHERE k = ?", 1).unwrap();
    let mut b = Statement::new("SELECT * FROM u WHERE k = ?", 1).unwrap();
    b.bind_bool(0, true).unwrap();
    a.free();
    assert!(!a.is_live());
    a.free();
    a.free();
    assert!(!a.is_live());
    assert!(b.is_live());
    assert_eq!(*b.bound_value(0).unwrap(), Some(TypedValue::Bool(true)));
}

#[test]
fn operations_on_released_statement_report_released() {
    let mut s = Statement::new("SELECT * FROM t WHERE k = ?", 1).unwrap();
    s.free();
    assert_eq!(s.bind_int32(0, 1), Err(CassError::Released));
    assert_eq!(s.set_paging_size(10), Err(CassError::Released));
    assert_eq!(s.bound_value(0), Err(CassError::Released));
}

#[test]
fn paging_size_defaults_to_disabled() {
    let s = Statement::new("SELECT * FROM t", 0).unwrap();
    assert_eq!(s.paging_size(), PAGING_DISABLED);
    assert_eq!(s.paging_size(), -1);
}

#[test]
fn paging_size_minus_one_matches_never_set() {
    let never_set = Statement::new("SELECT * FROM t", 0).unwrap();
    let mut set_minus_one = Statement::new("SELECT * FROM t", 0).unwrap();
    set_minus_one.set_paging_size(-1).unwrap();
    assert_eq!(set_minus_one.paging_size(), never_set.paging_size());
}

#[test]
fn positive_paging_size_enables_paging() {
    let mut s = Statement::new("SELECT * FROM t", 0).unwrap();
    s.set_paging_size(512).unwrap();
    assert_eq!(s.paging_size(), 512);
}

#[test]
fn consistency_defaults_to_local_one() {
    let s = Statement::new("SELECT * FROM t", 0).unwrap();
    assert_eq!(s.consistency(), Consistency::LocalOne);
    assert_eq!(s.serial_consistency(), None);
}

#[test]
fn option_setters_store_their_values() {
    let mut s = Statement::new("SELECT * FROM t", 0).unwrap();
    s.set_consistency(Consistency::Quorum).unwrap();
    s.set_serial_consistency(Consistency::LocalSerial).unwrap();
    s.set_timestamp(1234567).unwrap();
    s.set_retry_policy(RetryPolicy { handle: 11 }).unwrap();
    s.set_custom_payload(CustomPayload { handle: 22 }).unwrap();
    s.set_keyspace(String::from("examples")).unwrap();
    assert_eq!(s.consistency(), Consistency::Quorum);
    assert_eq!(s.serial_consistency(), Some(Consistency::LocalSerial));
    assert_eq!(s.timestamp(), Some(1234567));
    assert_eq!(s.retry_policy(), Some(RetryPolicy { handle: 11 }));
    assert_eq!(s.custom_payload(), Some(CustomPayload { handle: 22 }));
    assert_eq!(s.keyspace(), Some("examples"));
}

#[test]
fn keyspace_with_embedded_terminator_is_rejected() {
    let mut s = Statement::new("SELECT * FROM t", 0).unwrap();
    let r = s.set_keyspace(String::from("bad\0space"));
    assert_eq!(r, Err(CassError::InvalidText));
    assert_eq!(s.keyspace(), None);
}

#[test]
fn paging_state_token_and_result_store_the_same_token() {
    let mut via_token = Statement::new("SELECT * FROM t", 0).unwrap();
    let mut via_result = Statement::new("SELECT * FROM t", 0).unwrap();
    via_token.set_paging_state_token("page-7").unwrap();
    via_result
        .set_paging_state(CassResult { paging_token: String::from("page-7") })
        .unwrap();
    assert_eq!(via_token.paging_state(), Some("page-7"));
    assert_eq!(via_result.paging_state(), Some("page-7"));
    assert_eq!(via_token.paging_state(), via_result.paging_state());
}

#[test]
fn add_key_index_is_cumulative_and_range_checked() {
    let mut s = Statement::new("INSERT INTO t (a, b) VALUES (?, ?)", 2).unwrap();
    s.add_key_index(0).unwrap();
    s.add_key_index(1).unwrap();
    assert_eq!(*s.key_indexes(), vec![0u64, 1]);
    assert_eq!(s.add_key_index(2), Err(CassError::IndexOutOfRange));
    assert_eq!(*s.key_indexes(), vec![0u64, 1]);
}

#[test]
fn stmt_helper_counts_placeholders() {
    let s = stmt("INSERT INTO examples.basic (key, bln, flt, dbl, i32, i64) VALUES (?, ?, ?, ?, ?, ?);")
        .unwrap();
    assert_eq!(s.parameter_count(), 6);
    let none = stmt("SELECT * FROM t;").unwrap();
    assert_eq!(none.parameter_count(), 0);
    let one = stmt("SELECT * FROM examples.basic WHERE key = ?").unwrap();
    assert_eq!(one.parameter_count(), 1);
}
