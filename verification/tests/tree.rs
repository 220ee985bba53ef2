use yam::cst::{CstNode, Field, Kind, Position};
use yam::grammar::syntax_tree;
use yam::number::IntegerFormat;
use yam::parser::{
    compile, parse, Fault, FloatValue, MapItem, ParseError, Scalar, ScalarType, YamlParser,
};

fn node(label: &str, span: (usize, usize), at: (usize, usize), children: Vec<CstNode>) -> CstNode {
    CstNode {
        label: label.to_string(),
        field: None,
        start: span.0,
        end: span.1,
        at: Position { row: at.0, column: at.1 },
        children,
    }
}

fn held(field: Field, mut child: CstNode) -> CstNode {
    child.field = Some(
        match field {
            Field::Key => "key",
            Field::Value => "value",
        }
        .to_string(),
    );
    child
}

fn leaf(label: &str, span: (usize, usize), at: (usize, usize)) -> CstNode {
    node(label, span, at, vec![])
}

fn plain(typed: &str, span: (usize, usize), at: (usize, usize)) -> CstNode {
    node("plain_scalar", span, at, vec![leaf(typed, span, at)])
}

fn flow(inner: CstNode) -> CstNode {
    node("flow_node", (inner.start, inner.end), (inner.at.row, inner.at.column), vec![inner])
}

fn bare(value: ScalarType<'static>) -> Scalar<'static> {
    Scalar { value, comment: None }
}

fn root_of(source: &str, content: Vec<CstNode>) -> CstNode {
    node("stream", (0, source.len()), (0, 0), vec![node("document", (0, source.len()), (0, 0), content)])
}

#[test]
fn the_grammar_yields_the_tree_that_the_compiler_reads() {
    let tree = syntax_tree("name: truman").unwrap();
    let expected = root_of(
        "name: truman",
        vec![node(
            "block_node",
            (0, 12),
            (0, 0),
            vec![node(
                "block_mapping",
                (0, 12),
                (0, 0),
                vec![node(
                    "block_mapping_pair",
                    (0, 12),
                    (0, 0),
                    vec![
                        held(Field::Key, flow(plain("string_scalar", (0, 4), (0, 0)))),
                        leaf(":", (4, 5), (0, 4)),
                        held(Field::Value, flow(plain("string_scalar", (6, 12), (0, 6)))),
                    ],
                )],
            )],
        )],
    );
    assert_eq!(tree, expected);
}

#[test]
fn the_grammar_names_fields_past_comments() {
    let tree = syntax_tree("key: # c\n  value").unwrap();
    let pair = &tree.children[0].children[0].children[0].children[0];
    assert_eq!(pair.kind(), Kind::BlockMappingPair);
    let fields: Vec<(Kind, Option<Field>)> =
        pair.children.iter().map(|child| (child.kind(), child.held())).collect();
    assert_eq!(
        fields,
        vec![
            (Kind::FlowNode, Some(Field::Key)),
            (Kind::Other, None),
            (Kind::Comment, None),
            (Kind::FlowNode, Some(Field::Value)),
        ]
    );
    assert_eq!(pair.child_by_field(Field::Key), Some(&pair.children[0]));
    assert_eq!(pair.child_by_field(Field::Value), Some(&pair.children[3]));
}

#[test]
fn the_grammar_gives_rows_and_columns_from_zero() {
    let tree = syntax_tree("a:\n  - 1\n  - x: \u{e9}\n").unwrap();
    let mut places = Vec::new();
    let mut pending = vec![&tree];
    while let Some(next) = pending.pop() {
        if next.kind() == Kind::IntegerScalar || next.kind() == Kind::StringScalar {
            places.push((next.start, next.end, next.at.row, next.at.column));
        }
        for child in next.children.iter().rev() {
            pending.push(child);
        }
    }
    assert_eq!(places, vec![(0, 1, 0, 0), (7, 8, 1, 4), (13, 14, 2, 4), (16, 18, 2, 7)]);
}

#[test]
fn a_copied_tree_compiles_as_the_text_does() {
    for text in ["42", "name: truman", "{x, y:}", "# c\n- 1\n- 2 # d\n", "", "a:\n  - b: [1, 2]\n"] {
        let tree = syntax_tree(text).unwrap();
        let from_tree = compile(text, &tree).unwrap().map(|document| document.root);
        let from_text = parse(text).unwrap().map(|document| document.root);
        assert_eq!(from_tree, from_text, "{:?}", text);
    }
}

#[test]
fn a_tree_built_by_hand_compiles() {
    let source = "a: 0x10";
    let tree = root_of(
        source,
        vec![node(
            "block_node",
            (0, 7),
            (0, 0),
            vec![node(
                "block_mapping",
                (0, 7),
                (0, 0),
                vec![node(
                    "block_mapping_pair",
                    (0, 7),
                    (0, 0),
                    vec![
                        held(Field::Key, flow(plain("string_scalar", (0, 1), (0, 0)))),
                        leaf(":", (1, 2), (0, 1)),
                        held(Field::Value, flow(plain("integer_scalar", (3, 7), (0, 3)))),
                    ],
                )],
            )],
        )],
    );
    let document = compile(source, &tree).unwrap().unwrap();
    assert_eq!(
        document.root,
        bare(ScalarType::Mapping(vec![MapItem { key: "a", value: bare(ScalarType::Integer(16)) }]))
    );
}

#[test]
fn a_wrapper_without_a_child_is_a_fault() {
    let tree = root_of("", vec![leaf("flow_node", (0, 0), (0, 0))]);
    assert_eq!(compile("", &tree).unwrap_err(), Fault::EmptyWrapper);
    let tree = root_of("", vec![leaf("block_node", (0, 0), (0, 0))]);
    assert_eq!(compile("", &tree).unwrap_err(), Fault::EmptyWrapper);
}

#[test]
fn a_plain_scalar_without_a_child_is_a_fault() {
    let tree = root_of("x", vec![leaf("plain_scalar", (0, 1), (0, 0))]);
    assert_eq!(compile("x", &tree).unwrap_err(), Fault::EmptyPlainScalar);
}

#[test]
fn a_plain_scalar_of_an_unknown_type_is_a_fault() {
    let tree = root_of("2001-01-01", vec![plain("timestamp_scalar", (0, 10), (0, 0))]);
    assert_eq!(
        compile("2001-01-01", &tree).unwrap_err(),
        Fault::UnexpectedKind {
            label: "timestamp_scalar".to_string(),
            at: Position { row: 0, column: 0 }
        }
    );
}

#[test]
fn a_node_that_is_no_value_is_a_fault() {
    let tree = root_of("x", vec![leaf("block_mapping_pair", (0, 1), (3, 4))]);
    assert_eq!(
        compile("x", &tree).unwrap_err(),
        Fault::UnexpectedKind {
            label: "block_mapping_pair".to_string(),
            at: Position { row: 3, column: 4 }
        }
    );
}

fn mapping_of(pair: Vec<CstNode>, len: usize) -> Vec<CstNode> {
    vec![node(
        "block_node",
        (0, len),
        (0, 0),
        vec![node(
            "block_mapping",
            (0, len),
            (0, 0),
            vec![node("block_mapping_pair", (0, len), (0, 0), pair)],
        )],
    )]
}

#[test]
fn a_pair_without_a_key_is_a_fault() {
    let source = ": b";
    let pair = vec![
        leaf(":", (0, 1), (0, 0)),
        held(Field::Value, flow(plain("string_scalar", (2, 3), (0, 2)))),
    ];
    let tree = root_of(source, mapping_of(pair, 3));
    assert_eq!(compile(source, &tree).unwrap_err(), Fault::MissingKey);
}

#[test]
fn a_key_wrapper_without_a_child_is_a_fault() {
    let source = ": b";
    let pair = vec![
        held(Field::Key, leaf("flow_node", (0, 0), (0, 0))),
        leaf(":", (0, 1), (0, 0)),
        held(Field::Value, flow(plain("string_scalar", (2, 3), (0, 2)))),
    ];
    let tree = root_of(source, mapping_of(pair, 3));
    assert_eq!(compile(source, &tree).unwrap_err(), Fault::EmptyKey);
}

#[test]
fn the_first_child_under_a_field_is_taken() {
    let source = "a b c d";
    let pair = vec![
        held(Field::Key, flow(plain("string_scalar", (0, 1), (0, 0)))),
        held(Field::Value, flow(plain("string_scalar", (2, 3), (0, 2)))),
        held(Field::Key, flow(plain("string_scalar", (4, 5), (0, 4)))),
        held(Field::Value, flow(plain("string_scalar", (6, 7), (0, 6)))),
    ];
    let tree = root_of(source, mapping_of(pair, 7));
    let document = compile(source, &tree).unwrap().unwrap();
    assert_eq!(
        document.root,
        bare(ScalarType::Mapping(vec![MapItem { key: "a", value: bare(ScalarType::String("b")) }]))
    );
}

#[test]
fn a_key_is_the_text_as_written() {
    let source = "0x2A: 1\ntrue: 2\n1.50: 3\n~: 4\n'q': 5\n\"d\\n\": 6\n";
    let document = parse(source).unwrap().unwrap();
    let keys: Vec<&str> = match &document.root.value {
        ScalarType::Mapping(entries) => entries.iter().map(|entry| entry.key).collect(),
        _ => panic!("root node should contain a map scalar"),
    };
    assert_eq!(keys, vec!["0x2A", "true", "1.50", "~", "q", "d\\n"]);
}

#[test]
fn a_key_that_is_no_scalar_and_no_collection_is_its_text() {
    let source = "*a : 1";
    let pair = vec![
        held(Field::Key, flow(leaf("alias", (0, 2), (0, 0)))),
        leaf(":", (3, 4), (0, 3)),
        held(Field::Value, flow(plain("integer_scalar", (5, 6), (0, 5)))),
    ];
    let tree = root_of(source, mapping_of(pair, 6));
    let document = compile(source, &tree).unwrap().unwrap();
    assert_eq!(
        document.root,
        bare(ScalarType::Mapping(vec![MapItem { key: "*a", value: bare(ScalarType::Integer(1)) }]))
    );
}

#[test]
fn a_plain_key_without_a_child_is_its_own_text() {
    let source = "k: 1";
    let pair = vec![
        held(Field::Key, flow(leaf("plain_scalar", (0, 1), (0, 0)))),
        leaf(":", (1, 2), (0, 1)),
        held(Field::Value, flow(plain("integer_scalar", (3, 4), (0, 3)))),
    ];
    let tree = root_of(source, mapping_of(pair, 4));
    let document = compile(source, &tree).unwrap().unwrap();
    assert_eq!(
        document.root,
        bare(ScalarType::Mapping(vec![MapItem { key: "k", value: bare(ScalarType::Integer(1)) }]))
    );
}

#[test]
fn a_span_that_leaves_the_source_is_a_fault() {
    let at = Position { row: 0, column: 0 };
    for typed in ["integer_scalar", "float_scalar", "boolean_scalar", "string_scalar"] {
        let tree = root_of("12", vec![plain(typed, (0, 3), (0, 0))]);
        assert_eq!(compile("12", &tree).unwrap_err(), Fault::InvalidSpan { at }, "{}", typed);
        let tree = root_of("12", vec![plain(typed, (2, 1), (0, 0))]);
        assert_eq!(compile("12", &tree).unwrap_err(), Fault::InvalidSpan { at }, "{}", typed);
    }
    let tree = root_of("12", vec![plain("null_scalar", (0, 3), (0, 0))]);
    assert_eq!(compile("12", &tree).unwrap().unwrap().root, bare(ScalarType::Null));
}

#[test]
fn a_span_that_cuts_a_character_is_a_fault() {
    let source = "\u{e9}\u{e9}";
    let at = Position { row: 0, column: 0 };
    let tree = root_of(source, vec![plain("string_scalar", (0, 1), (0, 0))]);
    assert_eq!(compile(source, &tree).unwrap_err(), Fault::InvalidSpan { at });
    let tree = root_of(source, vec![plain("string_scalar", (1, 4), (0, 0))]);
    assert_eq!(compile(source, &tree).unwrap_err(), Fault::InvalidSpan { at });
    let tree = root_of(source, vec![plain("string_scalar", (2, 4), (0, 0))]);
    assert_eq!(compile(source, &tree).unwrap().unwrap().root, bare(ScalarType::String("\u{e9}")));
}

#[test]
fn a_quoted_scalar_needs_both_delimiters() {
    let at = Position { row: 0, column: 0 };
    let tree = root_of("'", vec![leaf("single_quote_scalar", (0, 1), (0, 0))]);
    assert_eq!(compile("'", &tree).unwrap_err(), Fault::InvalidSpan { at });
    let tree = root_of("", vec![leaf("double_quote_scalar", (0, 0), (0, 0))]);
    assert_eq!(compile("", &tree).unwrap_err(), Fault::InvalidSpan { at });
    let tree = root_of("\u{e9}", vec![leaf("double_quote_scalar", (0, 2), (0, 0))]);
    assert_eq!(compile("\u{e9}", &tree).unwrap_err(), Fault::InvalidSpan { at });
    let tree = root_of("''", vec![leaf("single_quote_scalar", (0, 2), (0, 0))]);
    assert_eq!(compile("''", &tree).unwrap().unwrap().root, bare(ScalarType::String("")));
}

#[test]
fn a_quoted_scalar_loses_its_first_and_last_character_whatever_they_are() {
    let source = "<abc>";
    let tree = root_of(source, vec![leaf("double_quote_scalar", (0, 5), (0, 0))]);
    assert_eq!(compile(source, &tree).unwrap().unwrap().root, bare(ScalarType::String("abc")));
    let source = "\u{ab}a\u{e9}b\u{bb}";
    let tree = root_of(source, vec![leaf("double_quote_scalar", (0, 8), (0, 0))]);
    assert_eq!(
        compile(source, &tree).unwrap().unwrap().root,
        bare(ScalarType::String("a\u{e9}b"))
    );
}

#[test]
fn only_the_first_content_of_a_wrapper_counts() {
    let source = "1 2";
    let tree = root_of(
        source,
        vec![
            leaf("comment", (0, 0), (7, 0)),
            leaf("-", (0, 0), (0, 0)),
            flow(plain("integer_scalar", (0, 1), (0, 0))),
            flow(plain("integer_scalar", (2, 3), (0, 2))),
            leaf("anchor", (0, 0), (0, 0)),
        ],
    );
    assert_eq!(compile(source, &tree).unwrap().unwrap().root, bare(ScalarType::Integer(1)));
}

#[test]
fn only_the_first_document_of_a_stream_counts() {
    let document = parse("1\n---\n2\n").unwrap().unwrap();
    assert_eq!(document.root.value, ScalarType::Integer(1));
}

#[test]
fn a_tree_without_content_is_no_document() {
    let tree = leaf("stream", (0, 0), (0, 0));
    assert!(compile("", &tree).unwrap().is_none());
    let tree = node(
        "stream",
        (0, 3),
        (0, 0),
        vec![leaf("comment", (0, 3), (0, 0)), leaf("-", (0, 0), (0, 0))],
    );
    assert!(compile("# c", &tree).unwrap().is_none());
    let tree = root_of("", vec![]);
    assert!(compile("", &tree).unwrap().is_none());
}

#[test]
fn the_parser_files_comments_and_finds_them() {
    let source = "# a\n# b\nx # c\n";
    let tree = node(
        "stream",
        (0, 14),
        (0, 0),
        vec![
            leaf("comment", (0, 3), (0, 0)),
            leaf("comment", (4, 7), (1, 0)),
            node("document", (8, 9), (2, 0), vec![flow(plain("string_scalar", (8, 9), (2, 0)))]),
            leaf("comment", (10, 13), (2, 2)),
        ],
    );
    let mut parser = YamlParser::new(source);
    assert!(parser.comments.is_empty());
    parser.parse_comments(&tree);
    let mut filed: Vec<(usize, String)> =
        parser.comments.iter().map(|(row, text)| (*row, text.clone())).collect();
    filed.sort();
    assert_eq!(filed, vec![(1, "a b".to_string()), (2, "c".to_string())]);
    assert_eq!(parser.find_comment_for_node(&leaf("x", (0, 0), (0, 0))), None);
    assert_eq!(parser.find_comment_for_node(&leaf("x", (0, 0), (1, 0))), Some("a b".to_string()));
    assert_eq!(parser.find_comment_for_node(&leaf("x", (0, 0), (2, 0))), Some("c".to_string()));
    assert_eq!(parser.find_comment_for_node(&leaf("x", (0, 0), (3, 0))), Some("c".to_string()));
    assert_eq!(parser.find_comment_for_node(&leaf("x", (0, 0), (4, 0))), None);
    assert_eq!(parser.extract_comment_text(&tree.children[0]), "a");
    assert_eq!(parser.extract_comment_text(&leaf("comment", (0, 99), (0, 0))), "");
}

#[test]
fn a_later_comment_on_a_line_replaces_an_earlier_one() {
    let source = "#a #b";
    let tree = node(
        "stream",
        (0, 5),
        (0, 0),
        vec![
            leaf("comment", (0, 2), (0, 0)),
            leaf("-", (2, 3), (0, 2)),
            leaf("comment", (3, 5), (0, 3)),
        ],
    );
    let mut parser = YamlParser::new(source);
    parser.parse_comments(&tree);
    assert_eq!(parser.comments.len(), 1);
    assert_eq!(parser.comments.get(&0), Some(&"b".to_string()));
}

#[test]
fn the_parser_compiles_in_two_phases() {
    let source = "# c\n7";
    let tree = syntax_tree(source).unwrap();
    let mut parser = YamlParser::new(source);
    assert_eq!(
        parser.parse_tree(&tree),
        Ok(Scalar { value: ScalarType::Integer(7), comment: None })
    );
    assert_eq!(
        parser.parse(&tree),
        Ok(Scalar { value: ScalarType::Integer(7), comment: Some("c".to_string()) })
    );
    let empty = syntax_tree("").unwrap();
    assert_eq!(YamlParser::new("").parse(&empty), Err(ParseError::EmptyDocument));
}

#[test]
fn the_parser_compiles_each_kind_of_value() {
    let source = "'q' |\nb\n";
    let parser = YamlParser::new(source);
    let quoted = leaf("single_quote_scalar", (0, 3), (0, 0));
    assert_eq!(parser.parse_quoted_scalar(&quoted), Ok(bare(ScalarType::String("q"))));
    assert_eq!(parser.quoted(&quoted), Ok("q"));
    let block = leaf("block_scalar", (4, 8), (0, 4));
    assert_eq!(parser.parse_block_scalar(&block), Ok(bare(ScalarType::String("b\n"))));
    let source = "12 1.5 true word ~";
    let parser = YamlParser::new(source);
    assert_eq!(
        parser.parse_plain_scalar(&plain("integer_scalar", (0, 2), (0, 0))),
        Ok(bare(ScalarType::Integer(12)))
    );
    assert_eq!(
        parser.parse_plain_scalar(&plain("float_scalar", (3, 6), (0, 3))),
        Ok(bare(ScalarType::Float(FloatValue::Decimal("1.5"))))
    );
    assert_eq!(
        parser.parse_plain_scalar(&plain("boolean_scalar", (7, 11), (0, 7))),
        Ok(bare(ScalarType::Boolean(true)))
    );
    assert_eq!(
        parser.parse_plain_scalar(&plain("string_scalar", (12, 16), (0, 12))),
        Ok(bare(ScalarType::String("word")))
    );
    assert_eq!(
        parser.parse_plain_scalar(&plain("null_scalar", (17, 18), (0, 17))),
        Ok(bare(ScalarType::Null))
    );
    assert_eq!(
        parser.parse_plain_scalar(&plain("integer_scalar", (12, 16), (5, 6))),
        Err(Fault::InvalidInteger {
            format: IntegerFormat::Decimal,
            at: Position { row: 5, column: 6 }
        })
    );
    assert_eq!(
        parser.parse_value(&flow(flow(plain("integer_scalar", (0, 2), (0, 0))))),
        Ok(bare(ScalarType::Integer(12)))
    );
    assert_eq!(parser.parse_key_as_str(&flow(plain("integer_scalar", (0, 2), (0, 0)))), Ok("12"));
}

#[test]
fn the_parser_compiles_sequences_and_mappings() {
    let source = "[1, 2]";
    let tree = syntax_tree(source).unwrap();
    let sequence = &tree.children[0].children[0].children[0];
    assert_eq!(sequence.kind(), Kind::FlowSequence);
    let parser = YamlParser::new(source);
    let items = vec![bare(ScalarType::Integer(1)), bare(ScalarType::Integer(2))];
    assert_eq!(parser.parse_flow_sequence(sequence).unwrap(), items);
    assert_eq!(parser.parse_items(sequence, Kind::FlowNode).unwrap(), items);
    assert_eq!(parser.parse_block_sequence(sequence).unwrap(), vec![]);
    assert_eq!(parser.parse_mapping(sequence).unwrap(), vec![
        MapItem { key: "1", value: bare(ScalarType::Null) },
        MapItem { key: "2", value: bare(ScalarType::Null) },
    ]);

    let source = "- a\n- b: c\n";
    let tree = syntax_tree(source).unwrap();
    let sequence = &tree.children[0].children[0].children[0];
    assert_eq!(sequence.kind(), Kind::BlockSequence);
    let parser = YamlParser::new(source);
    let items = parser.parse_block_sequence(sequence).unwrap();
    assert_eq!(items.len(), 2);
    assert_eq!(items[0], bare(ScalarType::String("a")));
    assert_eq!(
        items[1],
        bare(ScalarType::Mapping(vec![MapItem { key: "b", value: bare(ScalarType::String("c")) }]))
    );
    let mapping = &sequence.children[1].children[1].children[0];
    assert_eq!(mapping.kind(), Kind::BlockMapping);
    assert_eq!(
        parser.parse_pair(&mapping.children[0]),
        Ok(MapItem { key: "b", value: bare(ScalarType::String("c")) })
    );
}

#[test]
fn a_comment_is_attached_once_and_not_to_collections() {
    let source = "# c\nx";
    let tree = syntax_tree(source).unwrap();
    let mut parser = YamlParser::new(source);
    parser.parse_comments(&tree);
    let at_row_one = leaf("x", (0, 0), (1, 0));
    assert_eq!(
        parser.attach_comment(bare(ScalarType::Integer(1)), &at_row_one),
        Scalar { value: ScalarType::Integer(1), comment: Some("c".to_string()) }
    );
    assert_eq!(
        parser.attach_comment(
            Scalar { value: ScalarType::Integer(1), comment: Some("own".to_string()) },
            &at_row_one
        ),
        Scalar { value: ScalarType::Integer(1), comment: Some("own".to_string()) }
    );
    assert_eq!(
        parser.attach_comment(bare(ScalarType::List(vec![])), &at_row_one),
        bare(ScalarType::List(vec![]))
    );
    assert_eq!(
        parser.attach_comment(bare(ScalarType::Mapping(vec![])), &at_row_one),
        bare(ScalarType::Mapping(vec![]))
    );
}

#[test]
fn a_document_can_be_copied() {
    let document = parse("a: [1, {b: ~}] # c\nd: 'e' # f\ng: .inf\n").unwrap().unwrap();
    let copy = document.root.clone();
    assert_eq!(copy, document.root);
    match (&copy.value, &document.root.value) {
        (ScalarType::Mapping(a), ScalarType::Mapping(b)) => {
            assert_eq!(a.len(), 3);
            assert_eq!(a[1].clone(), b[1]);
            assert_eq!(a[0].value.value.clone(), b[0].value.value);
        }
        _ => panic!("root node should contain a map scalar"),
    }
}

#[test]
fn a_fault_below_a_wrapper_is_a_malformed_source() {
    let source = "- 1\n- +.inf\n";
    let tree = syntax_tree(source).unwrap();
    let mut parser = YamlParser::new(source);
    let fault = Fault::InvalidFloat { at: Position { row: 1, column: 2 } };
    assert_eq!(parser.parse(&tree), Err(ParseError::Generic(Fault::InvalidFloat {
        at: Position { row: 1, column: 2 }
    })));
    assert_eq!(compile(source, &tree).unwrap_err(), fault);
    assert_eq!(parse(source).unwrap_err().message(), "invalid float at line 2, column 3");
}

#[test]
fn a_node_is_what_its_label_names() {
    let mut pair = leaf("block_mapping_pair", (0, 0), (0, 0));
    assert_eq!(pair.kind(), Kind::BlockMappingPair);
    assert_eq!(pair.held(), None);
    pair.field = Some("value".to_string());
    assert_eq!(pair.held(), Some(Field::Value));
    pair.field = Some("key".to_string());
    assert_eq!(pair.held(), Some(Field::Key));
    pair.field = Some("other".to_string());
    assert_eq!(pair.held(), None);
    pair.label = "anchor".to_string();
    assert_eq!(pair.kind(), Kind::Other);
}

#[test]
fn a_run_of_comments_is_held_under_its_last_line_among_other_runs() {
    let source = "#a\n#b\nx: 1\n#c\n#d\n#e\ny: 2 #f\n";
    let tree = syntax_tree(source).unwrap();
    let mut parser = YamlParser::new(source);
    parser.parse_comments(&tree);
    let mut filed: Vec<(usize, String)> =
        parser.comments.iter().map(|(row, text)| (*row, text.clone())).collect();
    filed.sort();
    assert_eq!(
        filed,
        vec![(1, "a b".to_string()), (5, "c d e".to_string()), (6, "f".to_string())]
    );
}

#[test]
fn the_tree_of_a_text_is_always_the_same() {
    for text in ["", "a: [1, {b: ~}] # c\n", "- x\n- y: |\n    z\n"] {
        assert_eq!(syntax_tree(text), syntax_tree(text), "{:?}", text);
    }
}
