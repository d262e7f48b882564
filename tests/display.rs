use pputil::payload::{find_entry, IntegerValue, PayloadValue, Timestamp};
use pputil::project::{date_display, project, DisplayValue};

fn text(t: &str) -> DisplayValue {
    DisplayValue::Text(t.to_string())
}

fn strings(n: usize) -> Vec<PayloadValue> {
    (0..n).map(|i| PayloadValue::String(format!("d{}", i))).collect()
}

#[test]
fn scalars_are_projected_as_scalars() {
    assert_eq!(project(&PayloadValue::String("a".to_string())), text("a"));
    assert_eq!(project(&PayloadValue::Boolean(false)), DisplayValue::Boolean(false));
    let big = IntegerValue { signed: None, unsigned: Some(u64::MAX) };
    assert_eq!(project(&PayloadValue::Integer(big)), DisplayValue::Integer(u64::MAX as i128));
    let small = IntegerValue { signed: Some(-4), unsigned: None };
    assert_eq!(project(&PayloadValue::Integer(small)), DisplayValue::Integer(-4));
}

#[test]
fn binary_data_is_replaced_by_a_label() {
    assert_eq!(project(&PayloadValue::Binary(vec![1, 2, 3])), text("<base64 blob>"));
}

#[test]
fn other_kinds_show_their_type_name() {
    assert_eq!(project(&PayloadValue::Real), text("f64"));
    assert_eq!(project(&PayloadValue::Uid(7)), text("plist::Uid"));
    assert_eq!(project(&PayloadValue::Unknown), text("plist::Value"));
}

#[test]
fn dates_are_projected_as_rfc3339_text() {
    let d = PayloadValue::Date(Timestamp { secs: 1577836800, nanos: 0 });
    assert_eq!(project(&d), text("2020-01-01T00:00:00Z"));
    assert_eq!(date_display(&Timestamp { secs: 0, nanos: 0 }), "1970-01-01T00:00:00Z");
}

#[test]
fn dates_without_four_digit_year_get_a_label() {
    let far = Timestamp { secs: 253402300800, nanos: 0 };
    assert_eq!(date_display(&far), "<date out of range>");
    let bad_nanos = Timestamp { secs: 0, nanos: 1_000_000_000 };
    assert_eq!(date_display(&bad_nanos), "<date out of range>");
}

#[test]
fn sequence_of_ten_is_listed_in_full() {
    let projected = project(&PayloadValue::Sequence(strings(10)));
    let expected: Vec<DisplayValue> = (0..10).map(|i| text(&format!("d{}", i))).collect();
    assert_eq!(projected, DisplayValue::List(expected));
}

#[test]
fn sequence_of_eleven_is_abbreviated() {
    let projected = project(&PayloadValue::Sequence(strings(11)));
    assert_eq!(projected, DisplayValue::List(vec![text("count: 11"), text("(abbreviated)")]));
}

#[test]
fn long_sequences_become_exactly_two_elements() {
    for n in [11usize, 12, 100, 1234] {
        let projected = project(&PayloadValue::Sequence(strings(n)));
        assert_eq!(
            projected,
            DisplayValue::List(vec![text(&format!("count: {}", n)), text("(abbreviated)")])
        );
    }
}

#[test]
fn empty_sequence_is_an_empty_list() {
    assert_eq!(project(&PayloadValue::Sequence(vec![])), DisplayValue::List(vec![]));
}

#[test]
fn mappings_keep_keys_and_order_and_nest() {
    let inner = PayloadValue::Mapping(vec![("k".to_string(), PayloadValue::Sequence(strings(12)))]);
    let tree = PayloadValue::Mapping(vec![
        ("z".to_string(), PayloadValue::Boolean(true)),
        ("a".to_string(), inner),
    ]);
    let expected = DisplayValue::Mapping(vec![
        ("z".to_string(), DisplayValue::Boolean(true)),
        (
            "a".to_string(),
            DisplayValue::Mapping(vec![(
                "k".to_string(),
                DisplayValue::List(vec![text("count: 12"), text("(abbreviated)")]),
            )]),
        ),
    ]);
    assert_eq!(project(&tree), expected);
}

#[test]
fn lookup_takes_the_first_entry_with_the_key() {
    let entries = vec![
        ("a".to_string(), PayloadValue::Boolean(true)),
        ("b".to_string(), PayloadValue::Boolean(false)),
        ("a".to_string(), PayloadValue::Boolean(false)),
    ];
    assert_eq!(find_entry(&entries, "a"), Some(&PayloadValue::Boolean(true)));
    assert_eq!(find_entry(&entries, "b"), Some(&PayloadValue::Boolean(false)));
    assert_eq!(find_entry(&entries, "c"), None);
}
