use icrc1_test_suite::account::Account;
use icrc1_test_suite::assertions::{add_checked, assert_balance, assert_equal};
use icrc1_test_suite::meta::{contains_key, find_duplicate_key, lookup};
use icrc1_test_suite::text::{dec_of, hex_of};
use icrc1_test_suite::value::{value_eq, value_text};
use icrc1_test_suite::{test_metadata, test_suite, Value, Work};

fn entry(key: &str, v: Value) -> (String, Value) {
    (key.to_string(), v)
}

#[test]
fn decimal_rendering_is_exact() {
    assert_eq!(dec_of(0), "0");
    assert_eq!(dec_of(9), "9");
    assert_eq!(dec_of(10), "10");
    assert_eq!(dec_of(10_000), "10000");
    assert_eq!(dec_of(340_282_366_920_938_463_463_374_607_431_768_211_455), format!("{}", u128::MAX));
}

#[test]
fn hex_rendering_is_exact() {
    assert_eq!(hex_of(&vec![]), "");
    assert_eq!(hex_of(&vec![0x00, 0xff, 0x1a]), "00ff1a");
}

#[test]
fn value_equality_is_by_contents() {
    assert!(value_eq(&Value::Text("a".to_string()), &Value::Text("a".to_string())));
    assert!(!value_eq(&Value::Text("a".to_string()), &Value::Text("b".to_string())));
    assert!(value_eq(&Value::Nat(7), &Value::Nat(7)));
    assert!(!value_eq(&Value::Nat(7), &Value::Blob(vec![7])));
    assert!(value_eq(&Value::Blob(vec![1, 2]), &Value::Blob(vec![1, 2])));
    assert!(!value_eq(&Value::Blob(vec![1, 2]), &Value::Blob(vec![1, 3])));
    let nested_a = Value::Array(vec![Value::Nat(1), Value::Array(vec![Value::Text(
        "x".to_string(),
    )])]);
    let nested_b = Value::Array(vec![Value::Nat(1), Value::Array(vec![Value::Text(
        "x".to_string(),
    )])]);
    let nested_c = Value::Array(vec![Value::Nat(1), Value::Array(vec![Value::Text(
        "y".to_string(),
    )])]);
    assert!(value_eq(&nested_a, &nested_b));
    assert!(!value_eq(&nested_a, &nested_c));
}

#[test]
fn value_rendering_names_the_kind() {
    assert_eq!(value_text(&Value::Text("abc".to_string())), "text:abc");
    assert_eq!(value_text(&Value::Nat(42)), "nat:42");
    assert_eq!(value_text(&Value::Blob(vec![0x00, 0xff])), "blob:00ff");
    assert_eq!(value_text(&Value::Array(vec![Value::Nat(1), Value::Nat(2)])), "array:2 values");
}

#[test]
fn lookup_returns_the_first_binding() {
    let meta = vec![
        entry("k", Value::Nat(1)),
        entry("other", Value::Nat(2)),
        entry("k", Value::Nat(3)),
    ];
    let v = lookup(&meta, &"k".to_string()).expect("the key is present");
    assert!(value_eq(v, &Value::Nat(1)));
    assert!(lookup(&meta, &"absent".to_string()).is_none());
    assert!(contains_key(&meta, &"other".to_string()));
    assert!(!contains_key(&meta, &"absent".to_string()));
}

#[test]
fn duplicate_detector_flags_exactly_injected_duplicates() {
    let clean = vec![
        entry("a", Value::Nat(1)),
        entry("b", Value::Nat(2)),
        entry("c", Value::Nat(3)),
    ];
    assert!(find_duplicate_key(&clean).is_none());
    assert!(find_duplicate_key(&vec![]).is_none());
    assert!(find_duplicate_key(&vec![entry("a", Value::Nat(1))]).is_none());

    for pos in 0..3 {
        let mut salted = vec![
            entry("a", Value::Nat(1)),
            entry("b", Value::Nat(2)),
            entry("c", Value::Nat(3)),
        ];
        salted.insert(pos, entry("b", Value::Nat(9)));
        let j = find_duplicate_key(&salted).expect("an injected duplicate must be flagged");
        assert_eq!(salted[j].0, "b");
    }
}

#[test]
fn equality_check_reports_both_values() {
    assert!(assert_equal(&Value::Nat(1), &Value::Nat(1)).is_ok());
    let f = assert_equal(&Value::Nat(1), &Value::Nat(2)).unwrap_err();
    assert_eq!(f.notes, vec!["nat:1 != nat:2".to_string()]);
}

#[test]
fn balance_check_names_account_and_values() {
    let acc = Account { owner: vec![0xab], subaccount: None };
    assert!(assert_balance(&acc, 5, 5).is_ok());
    let f = assert_balance(&acc, 5, 6).unwrap_err();
    assert_eq!(f.notes, vec!["Expected the balance of account ab to be 5, got 6".to_string()]);
}

#[test]
fn zero_subaccount_form_is_explicit() {
    let acc = Account { owner: vec![1, 2], subaccount: None };
    let z = acc.with_zero_subaccount();
    assert_eq!(z.owner, vec![1, 2]);
    assert_eq!(z.subaccount, Some(vec![0u8; 32]));
}

#[test]
fn checked_addition_flags_overflow() {
    assert_eq!(add_checked(2, 3), Some(5));
    assert_eq!(add_checked(u128::MAX, 1), None);
    assert_eq!(add_checked(u128::MAX, 0), Some(u128::MAX));
}

#[test]
fn suite_registers_four_named_units_in_order() {
    let ts = test_suite(Account { owner: vec![9], subaccount: None });
    let got: Vec<&str> = ts.iter().map(|t| t.name.as_str()).collect();
    assert_eq!(got, vec![
        "basic:transfer",
        "basic:burn",
        "basic:metadata",
        "basic:supported_standards",
    ]);
    assert!(matches!(ts[0].work, Work::Transfer(_)));
    assert!(matches!(ts[1].work, Work::Burn(_)));
    assert!(matches!(ts[2].work, Work::Metadata(_)));
    assert!(matches!(ts[3].work, Work::Standards(_)));
}

#[test]
fn naming_a_unit_keeps_name_and_work() {
    let t = icrc1_test_suite::registry::test(
        "custom:metadata".to_string(),
        Work::Metadata(test_metadata()),
    );
    assert_eq!(t.name, "custom:metadata");
    assert!(matches!(t.work, Work::Metadata(_)));
}
