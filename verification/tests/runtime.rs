use javabind::interchange::{bool_to_transfer, decode_int_list, encode_int_list};
use javabind::registry::CallbackRegistry;

#[test]
fn encode_exact_texts() {
    assert_eq!(encode_int_list(&vec![]), "[]");
    assert_eq!(encode_int_list(&vec![0]), "[0]");
    assert_eq!(encode_int_list(&vec![1, -5, 42]), "[1,-5,42]");
    assert_eq!(
        encode_int_list(&vec![i64::MAX, i64::MIN]),
        "[9223372036854775807,-9223372036854775808]"
    );
}

#[test]
fn round_trip_identity() {
    let cases: Vec<Vec<i64>> = vec![
        vec![],
        vec![0],
        vec![7, 7, 7],
        vec![1, -1, 2, -2, 3, -3],
        vec![i64::MAX, i64::MIN, 0, 10, -10],
    ];
    for v in cases {
        let text = encode_int_list(&v);
        let back = decode_int_list(&text).unwrap();
        assert_eq!(back, v);
    }
}

#[test]
fn decode_rejects_non_canonical_texts() {
    assert!(decode_int_list("").is_none());
    assert!(decode_int_list("1,2").is_none());
    assert!(decode_int_list("[1,2").is_none());
    assert!(decode_int_list("[1,,2]").is_none());
    assert!(decode_int_list("[01]").is_none());
    assert!(decode_int_list("[-0]").is_none());
    assert!(decode_int_list("[ 1]").is_none());
    assert!(decode_int_list("[9223372036854775808]").is_none());
    assert!(decode_int_list("[-9223372036854775809]").is_none());
    assert!(decode_int_list("[12345678901234567890123]").is_none());
}

#[test]
fn decode_accepts_boundary_values() {
    assert_eq!(
        decode_int_list("[9223372036854775807]").unwrap(),
        vec![i64::MAX]
    );
    assert_eq!(
        decode_int_list("[-9223372036854775808]").unwrap(),
        vec![i64::MIN]
    );
    assert_eq!(decode_int_list("[]").unwrap(), Vec::<i64>::new());
}

#[test]
fn boolean_crosses_as_one_or_zero() {
    assert_eq!(bool_to_transfer(true), 1);
    assert_eq!(bool_to_transfer(false), 0);
}

#[test]
fn registry_identifiers_start_at_one_and_increase() {
    let mut reg: CallbackRegistry<String> = CallbackRegistry::new();
    let a = reg.register("first".to_string());
    let b = reg.register("second".to_string());
    assert_eq!(a, 1);
    assert_eq!(b, 2);
    assert_eq!(reg.lookup(a), Some(&"first".to_string()));
    assert_eq!(reg.lookup(b), Some(&"second".to_string()));
}

#[test]
fn free_callback_is_idempotent() {
    let mut reg: CallbackRegistry<u32> = CallbackRegistry::new();
    let id = reg.register(99);
    assert_eq!(reg.lookup(id), Some(&99));
    reg.free_callback(id);
    assert_eq!(reg.lookup(id), None);
    // a second release of the same identifier succeeds with no effect
    reg.free_callback(id);
    assert_eq!(reg.lookup(id), None);
    // releasing a never-issued identifier is a no-op too
    reg.free_callback(12345);
}

#[test]
fn identifiers_are_never_reused_after_release() {
    let mut reg: CallbackRegistry<u32> = CallbackRegistry::new();
    let a = reg.register(1);
    reg.free_callback(a);
    let b = reg.register(2);
    assert_ne!(a, b);
    assert!(b > a);
}

#[test]
fn many_registrations_issue_distinct_identifiers() {
    let mut reg: CallbackRegistry<usize> = CallbackRegistry::new();
    let mut ids: Vec<u64> = Vec::new();
    for i in 0..1000 {
        ids.push(reg.register(i));
    }
    let mut sorted = ids.clone();
    sorted.sort();
    sorted.dedup();
    assert_eq!(sorted.len(), 1000);
    for id in &ids {
        assert!(reg.lookup(*id).is_some());
    }
}
