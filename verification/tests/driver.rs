use etils::fields::{Field, Marker};
use etils::generate::{
    auto_deref_derive, deref_attribute, parse_bool_literal, DeriveError, RecordData, RecordInput,
};

fn marker(ident: &str, arg: Option<&str>) -> Marker {
    Marker { ident: ident.to_string(), arg: arg.map(|s| s.to_string()) }
}

fn named_field(ident: &str, ty: &str, markers: Vec<Marker>) -> Field {
    Field { ident: Some(ident.to_string()), ty: ty.to_string(), markers }
}

fn record(ident: &str, fields: Vec<Field>) -> RecordInput {
    RecordInput { ident: ident.to_string(), data: RecordData::Struct(fields) }
}

#[test]
fn read_only_delegation_for_deref_false() {
    let input = record(
        "Wrapper",
        vec![
            named_field("id", "Int", vec![]),
            named_field("value", "String", vec![marker("deref", Some("false"))]),
        ],
    );
    let generated = auto_deref_derive(&input).expect("generation succeeds");
    assert_eq!(generated.record_ident.as_str(), "Wrapper");
    assert_eq!(generated.field_name.as_str(), "value");
    assert_eq!(generated.target_ty.as_str(), "String");
    assert!(!generated.mutable);
}

#[test]
fn write_delegation_added_for_deref_true() {
    let input = record(
        "Wrapper",
        vec![
            named_field("id", "Int", vec![]),
            named_field("value", "String", vec![marker("deref", Some("true"))]),
        ],
    );
    let generated = auto_deref_derive(&input).expect("generation succeeds");
    assert_eq!(generated.record_ident.as_str(), "Wrapper");
    assert_eq!(generated.field_name.as_str(), "value");
    assert_eq!(generated.target_ty.as_str(), "String");
    assert!(generated.mutable);
}

#[test]
fn first_marked_field_wins() {
    let input = record(
        "Wrapper",
        vec![
            named_field("first", "u8", vec![marker("deref", Some("true"))]),
            named_field("second", "u16", vec![marker("deref", Some("false"))]),
        ],
    );
    let generated = auto_deref_derive(&input).expect("generation succeeds");
    assert_eq!(generated.field_name.as_str(), "first");
    assert_eq!(generated.target_ty.as_str(), "u8");
    assert!(generated.mutable);
}

#[test]
fn positional_record_delegates_by_position() {
    let input = RecordInput {
        ident: "Pair".to_string(),
        data: RecordData::Struct(vec![
            Field { ident: None, ty: "u8".to_string(), markers: vec![] },
            Field {
                ident: None,
                ty: "String".to_string(),
                markers: vec![marker("deref", Some("false"))],
            },
        ]),
    };
    let generated = auto_deref_derive(&input).expect("generation succeeds");
    assert_eq!(generated.field_name.as_str(), "1");
    assert_eq!(generated.target_ty.as_str(), "String");
    assert!(!generated.mutable);
}

#[test]
fn missing_marker_fails_and_names_the_expected_identifier() {
    let input = record(
        "Wrapper",
        vec![named_field("id", "Int", vec![]), named_field("value", "String", vec![])],
    );
    let err = auto_deref_derive(&input).expect_err("no field is marked");
    assert!(matches!(err, DeriveError::MissingMarker));
    assert!(err.message().contains(deref_attribute()));
    assert_eq!(
        err.message().as_str(),
        "Could not locate position of deref field, be sure its annotated with `deref`"
    );
}

#[test]
fn non_boolean_argument_fails_as_malformed() {
    let input = record(
        "Wrapper",
        vec![
            named_field("id", "Int", vec![]),
            named_field("value", "String", vec![marker("deref", Some("yes"))]),
        ],
    );
    let err = auto_deref_derive(&input).expect_err("the argument is not a boolean literal");
    assert!(matches!(err, DeriveError::MalformedArgument));
    assert_eq!(err.message().as_str(), "malformed `deref` argument, expected a boolean literal");
}

#[test]
fn absent_argument_fails_as_malformed() {
    let input = record(
        "Wrapper",
        vec![named_field("value", "String", vec![marker("deref", None)])],
    );
    let err = auto_deref_derive(&input).expect_err("the argument is absent");
    assert!(matches!(err, DeriveError::MalformedArgument));
}

#[test]
fn tagged_shapes_are_unsupported() {
    let as_enum = RecordInput { ident: "Choice".to_string(), data: RecordData::Enum };
    let err = auto_deref_derive(&as_enum).expect_err("an enum is not a fixed-field record");
    assert!(matches!(err, DeriveError::UnsupportedShape));
    assert_eq!(err.message().as_str(), "Deref only supports structs");

    let as_union = RecordInput { ident: "Raw".to_string(), data: RecordData::Union };
    let err = auto_deref_derive(&as_union).expect_err("a union is not a fixed-field record");
    assert!(matches!(err, DeriveError::UnsupportedShape));
}

#[test]
fn boolean_literals_parse_exactly() {
    assert_eq!(parse_bool_literal("true"), Some(true));
    assert_eq!(parse_bool_literal("false"), Some(false));
    assert_eq!(parse_bool_literal("yes"), None);
    assert_eq!(parse_bool_literal("True"), None);
    assert_eq!(parse_bool_literal(""), None);
    assert_eq!(parse_bool_literal(" true"), None);
}
