use yam::cst::Position;
use yam::number::IntegerFormat;
use yam::parser::{parse, Fault, ParseError};

#[test]
fn faults_say_where_they_are_from_one() {
    let at = Position { row: 2, column: 9 };
    assert_eq!(
        Fault::InvalidInteger { format: IntegerFormat::Decimal, at }.message(),
        "invalid integer at line 3, column 10"
    );
    assert_eq!(
        Fault::InvalidInteger { format: IntegerFormat::Hexadecimal, at }.message(),
        "invalid hexadecimal integer at line 3, column 10"
    );
    assert_eq!(
        Fault::InvalidInteger { format: IntegerFormat::Octal, at }.message(),
        "invalid octal integer at line 3, column 10"
    );
    assert_eq!(Fault::InvalidFloat { at }.message(), "invalid float at line 3, column 10");
    assert_eq!(Fault::InvalidBoolean { at }.message(), "invalid boolean at line 3, column 10");
    assert_eq!(
        Fault::UnexpectedKind { label: "anchor".to_string(), at }.message(),
        "unexpected node kind anchor at line 3, column 10"
    );
    assert_eq!(
        Fault::ComplexKey { at }.message(),
        "complex types cannot be used as map keys at line 3, column 10"
    );
    assert_eq!(
        Fault::InvalidSpan { at }.message(),
        "node outside the source text at line 3, column 10"
    );
}

#[test]
fn faults_without_a_place_say_what_is_wrong() {
    assert_eq!(Fault::EmptyWrapper.message(), "flow_node/block_node should have a child");
    assert_eq!(Fault::EmptyPlainScalar.message(), "should have a child");
    assert_eq!(Fault::EmptyKey.message(), "expected child node");
    assert_eq!(Fault::MissingKey.message(), "mandatory map key is missing");
    assert_eq!(Fault::EmptyValue.message(), "an empty document");
    assert_eq!(Fault::Language.message(), "failed to set YAML language");
    assert_eq!(Fault::NoTree.message(), "failed to parse YAML document");
}

#[test]
fn places_may_be_as_far_as_the_machine_counts() {
    let at = Position { row: usize::MAX, column: 0 };
    assert_eq!(
        Fault::InvalidFloat { at }.message(),
        format!("invalid float at line {}, column 1", usize::MAX as u128 + 1)
    );
}

#[test]
fn outcomes_have_messages() {
    assert_eq!(ParseError::EmptyDocument.message(), "an empty document");
    assert_eq!(
        ParseError::Generic(Fault::MissingKey).message(),
        "parsing error: mandatory map key is missing"
    );
    assert_eq!(
        ParseError::Generic(Fault::InvalidFloat { at: Position { row: 0, column: 0 } }).message(),
        "parsing error: invalid float at line 1, column 1"
    );
}

#[test]
fn an_outcome_inside_a_collection_is_a_fault() {
    assert_eq!(ParseError::EmptyDocument.into_fault(), Fault::EmptyValue);
    assert_eq!(ParseError::Generic(Fault::EmptyKey).into_fault(), Fault::EmptyKey);
}

#[test]
fn faults_of_a_text_have_the_messages_of_their_places() {
    let cases = [
        ("+.inf", "invalid float at line 1, column 1"),
        ("True", "invalid boolean at line 1, column 1"),
        ("99999999999999999999", "invalid integer at line 1, column 1"),
        ("0xFFFFFFFFFFFFFFFFF", "invalid hexadecimal integer at line 1, column 1"),
        ("0o7777777777777777777777", "invalid octal integer at line 1, column 1"),
        ("a:\n  b: +.INF", "invalid float at line 2, column 6"),
        ("&a x", "unexpected node kind anchor at line 1, column 1"),
        ("[a]: b", "complex types cannot be used as map keys at line 1, column 1"),
        ("- \n- 1", "an empty document"),
    ];
    for (text, message) in cases {
        assert_eq!(parse(text).unwrap_err().message(), message, "{:?}", text);
    }
}
