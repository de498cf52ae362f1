use chainsaw::value::{chars_eq, dup_value, repr_chars, repr_eq, u64_chars, FieldValue};

#[test]
fn decimal_rendering_of_small_and_large_numbers() {
    assert_eq!(u64_chars(0), vec!['0']);
    assert_eq!(u64_chars(7), vec!['7']);
    assert_eq!(u64_chars(4624), vec!['4', '6', '2', '4']);
    assert_eq!(
        u64_chars(18446744073709551615),
        "18446744073709551615".chars().collect::<Vec<char>>()
    );
}

#[test]
fn numbers_and_their_decimal_strings_compare_equal() {
    assert!(repr_eq(
        &FieldValue::UInt(4624),
        &FieldValue::Str("4624".to_string())
    ));
    assert!(repr_eq(
        &FieldValue::Int(-5),
        &FieldValue::Str("-5".to_string())
    ));
    assert!(!repr_eq(
        &FieldValue::UInt(4624),
        &FieldValue::Str("4625".to_string())
    ));
}

#[test]
fn booleans_render_as_words() {
    assert!(repr_eq(
        &FieldValue::Bool(true),
        &FieldValue::Str("true".to_string())
    ));
    assert!(repr_eq(
        &FieldValue::Bool(false),
        &FieldValue::Str("false".to_string())
    ));
    assert!(!repr_eq(&FieldValue::Bool(true), &FieldValue::Bool(false)));
}

#[test]
fn other_numbers_compare_by_their_rendering() {
    assert!(repr_eq(
        &FieldValue::Num("4.5".to_string()),
        &FieldValue::Str("4.5".to_string())
    ));
    assert!(!repr_eq(
        &FieldValue::Num("4.5".to_string()),
        &FieldValue::UInt(4)
    ));
}

#[test]
fn representation_of_a_negative_number_starts_with_a_sign() {
    assert_eq!(repr_chars(&FieldValue::Int(-4624)), vec![
        '-', '4', '6', '2', '4'
    ]);
    assert_eq!(
        repr_chars(&FieldValue::Int(i64::MIN)),
        "-9223372036854775808".chars().collect::<Vec<char>>()
    );
}

#[test]
fn character_vectors_compare_by_contents() {
    assert!(chars_eq(&vec!['a', 'b'], &vec!['a', 'b']));
    assert!(!chars_eq(&vec!['a', 'b'], &vec!['a', 'c']));
    assert!(!chars_eq(&vec!['a'], &vec!['a', 'b']));
}

#[test]
fn duplicated_values_keep_their_contents() {
    let v = FieldValue::Str("SYSTEM".to_string());
    match dup_value(&v) {
        FieldValue::Str(s) => assert_eq!(s, "SYSTEM"),
        _ => panic!("the copy should stay a string"),
    }
}

#[test]
fn substring_search_finds_inner_occurrences() {
    let text: Vec<char> = "windows svchost service".chars().collect();
    let hit: Vec<char> = "svchost".chars().collect();
    let miss: Vec<char> = "svchosts".chars().collect();
    let empty: Vec<char> = vec![];
    assert!(chainsaw::search::contains_chars(&text, &hit));
    assert!(!chainsaw::search::contains_chars(&text, &miss));
    assert!(chainsaw::search::contains_chars(&text, &empty));
    assert!(!chainsaw::search::contains_chars(&empty, &hit));
}
