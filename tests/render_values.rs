use isomdl_cli::render::{convert_tag_to_string, convert_value_to_string, decimal_string, signed_decimal_string};
use isomdl_cli::value::TaggedValue;

fn text(s: &str) -> TaggedValue {
    TaggedValue::Text(s.to_string())
}

#[test]
fn empty_sequence_and_mapping() {
    assert_eq!(convert_value_to_string(&TaggedValue::Sequence(vec![])), "[ ]");
    assert_eq!(convert_value_to_string(&TaggedValue::Mapping(vec![])), "{ }");
}

#[test]
fn scalar_values() {
    assert_eq!(convert_value_to_string(&text("a")), "'a'");
    assert_eq!(convert_value_to_string(&TaggedValue::Boolean(true)), "bool=true");
    assert_eq!(convert_value_to_string(&TaggedValue::Boolean(false)), "bool=false");
    assert_eq!(convert_value_to_string(&TaggedValue::Integer(42)), "int=42");
    assert_eq!(convert_value_to_string(&TaggedValue::Absent), "NULL");
    assert_eq!(convert_value_to_string(&TaggedValue::Float("1.5".to_string())), "float=1.5");
    assert_eq!(convert_value_to_string(&TaggedValue::Bytes(vec![1, 2, 3])), "bytes len=3");
    assert_eq!(convert_value_to_string(&TaggedValue::Bytes(vec![])), "bytes len=0");
}

#[test]
fn integers_at_the_edges() {
    assert_eq!(convert_value_to_string(&TaggedValue::Integer(0)), "int=0");
    assert_eq!(convert_value_to_string(&TaggedValue::Integer(-7)), "int=-7");
    assert_eq!(
        convert_value_to_string(&TaggedValue::Integer(i128::MAX)),
        format!("int={}", i128::MAX)
    );
    assert_eq!(
        convert_value_to_string(&TaggedValue::Integer(i128::MIN)),
        format!("int={}", i128::MIN)
    );
    assert_eq!(decimal_string(u128::MAX), u128::MAX.to_string());
    assert_eq!(decimal_string(1000), "1000");
    assert_eq!(signed_decimal_string(-1000), "-1000");
}

#[test]
fn date_time_tag() {
    let v = TaggedValue::Tagged(0, Box::new(text("2024-01-01T00:00:00Z")));
    assert_eq!(convert_value_to_string(&v), "tag=(IsoDateTime(Z), '2024-01-01T00:00:00Z')");
}

#[test]
fn date_string_tag() {
    let v = TaggedValue::Tagged(1004, Box::new(text("2024-01-01")));
    assert_eq!(convert_value_to_string(&v), "tag=(DateStr, '2024-01-01')");
}

#[test]
fn unknown_tag_uses_its_number() {
    let v = TaggedValue::Tagged(9999, Box::new(TaggedValue::Integer(1)));
    let r = convert_value_to_string(&v);
    assert_eq!(r, "tag=(9999, int=1)");
    assert!(r.contains("9999"));
    assert_eq!(convert_tag_to_string(1), "1");
    assert_eq!(convert_tag_to_string(u64::MAX), u64::MAX.to_string());
}

#[test]
fn sequence_keeps_trailing_separator() {
    let v = TaggedValue::Sequence(vec![TaggedValue::Integer(1), text("x")]);
    assert_eq!(convert_value_to_string(&v), "[ int=1, 'x', ]");
}

#[test]
fn mapping_has_no_separator_between_pairs() {
    let v = TaggedValue::Mapping(vec![
        (text("a"), TaggedValue::Integer(1)),
        (text("a"), TaggedValue::Boolean(false)),
    ]);
    assert_eq!(convert_value_to_string(&v), "{ 'a': int=1'a': bool=false}");
}

#[test]
fn nested_values() {
    let inner = TaggedValue::Mapping(vec![(
        text("codes"),
        TaggedValue::Sequence(vec![TaggedValue::Tagged(1004, Box::new(text("2030-01-01")))]),
    )]);
    let v = TaggedValue::Sequence(vec![inner, TaggedValue::Absent]);
    assert_eq!(
        convert_value_to_string(&v),
        "[ { 'codes': [ tag=(DateStr, '2030-01-01'), ]}, NULL, ]"
    );
}

#[test]
fn rendering_is_deterministic() {
    let make = || {
        TaggedValue::Mapping(vec![(
            text("k"),
            TaggedValue::Sequence(vec![TaggedValue::Bytes(vec![0; 5]), TaggedValue::Integer(-3)]),
        )])
    };
    let a = convert_value_to_string(&make());
    let b = convert_value_to_string(&make());
    assert_eq!(a, b);
    assert_eq!(a, "{ 'k': [ bytes len=5, int=-3, ]}");
}
