use aegis_backend::text::{
    concat2, concat3, exit_code_text, i32_to_decimal, id_text, join_spaced, u64_to_decimal,
};

#[test]
fn decimal_of_small_and_large_numbers() {
    assert_eq!(u64_to_decimal(0), "0");
    assert_eq!(u64_to_decimal(7), "7");
    assert_eq!(u64_to_decimal(10), "10");
    assert_eq!(u64_to_decimal(12345), "12345");
    assert_eq!(u64_to_decimal(u64::MAX), "18446744073709551615");
}

#[test]
fn decimal_of_signed_numbers() {
    assert_eq!(i32_to_decimal(0), "0");
    assert_eq!(i32_to_decimal(-1), "-1");
    assert_eq!(i32_to_decimal(42), "42");
    assert_eq!(i32_to_decimal(i32::MAX), "2147483647");
    assert_eq!(i32_to_decimal(i32::MIN), "-2147483648");
}

#[test]
fn decimal_agrees_with_std_formatting() {
    let samples: Vec<i32> = vec![0, 1, -1, 9, 10, 99, 100, -100, 65535, -32768, i32::MAX, i32::MIN];
    for n in samples {
        assert_eq!(i32_to_decimal(n), format!("{}", n));
    }
}

#[test]
fn exit_code_text_reads_like_debug_output() {
    assert_eq!(exit_code_text(None), "None");
    assert_eq!(exit_code_text(Some(0)), "Some(0)");
    assert_eq!(exit_code_text(Some(1)), "Some(1)");
    assert_eq!(exit_code_text(Some(-9)), "Some(-9)");
    assert_eq!(exit_code_text(Some(137)), format!("{:?}", Some(137)));
}

#[test]
fn id_text_is_hyphenated_lower_case_hex() {
    assert_eq!(
        id_text(0xa1a2a3a4b1b2c1c2d1d2d3d4d5d6d7d8),
        "a1a2a3a4-b1b2-c1c2-d1d2-d3d4d5d6d7d8"
    );
    assert_eq!(id_text(0), "00000000-0000-0000-0000-000000000000");
    assert_eq!(id_text(u128::MAX), "ffffffff-ffff-ffff-ffff-ffffffffffff");
    assert_eq!(id_text(1), "00000000-0000-0000-0000-000000000001");
    assert_eq!(id_text(0x0123456789abcdef0123456789abcdef), "01234567-89ab-cdef-0123-456789abcdef");
}

#[test]
fn id_text_agrees_with_uuid_display() {
    let samples: Vec<u128> = vec![
        0,
        1,
        u128::MAX,
        0xa1a2a3a4b1b2c1c2d1d2d3d4d5d6d7d8,
        0x00112233445566778899aabbccddeeff,
        0xdeadbeef_0000_4000_8000_000000000001,
    ];
    for v in samples {
        assert_eq!(id_text(v), uuid::Uuid::from_u128(v).to_string());
    }
    for _ in 0..50 {
        let u = uuid::Uuid::new_v4();
        assert_eq!(id_text(u.as_u128()), u.to_string());
    }
}

#[test]
fn join_spaced_puts_one_space_between_words() {
    let none: Vec<String> = vec![];
    assert_eq!(join_spaced(&none), "");
    assert_eq!(join_spaced(&vec!["a".to_string()]), "a");
    assert_eq!(join_spaced(&vec!["a".to_string(), "b c".to_string()]), "a b c");
    assert_eq!(
        join_spaced(&vec!["run".to_string(), "".to_string(), "x".to_string()]),
        "run  x"
    );
}

#[test]
fn concat_joins_in_order() {
    assert_eq!(concat2("ab", "cd"), "abcd");
    assert_eq!(concat2("", "cd"), "cd");
    assert_eq!(concat3("a", "b", "c"), "abc");
    assert_eq!(concat3("a", "", "c"), "ac");
}
