use yam::markdown::{
    finite_floats, flatten_document, flatten_entries, flatten_items, flatten_scalar,
    format_scalar_value, render_markdown, render_rows, table_row, table_rows, Leaf, RenderError,
    TableRow, TEMPLATE,
};
use yam::parser::{parse, FloatValue, MapItem, Scalar, ScalarType};

fn row(name: &str, value: &str, description: &str) -> TableRow {
    TableRow {
        name: name.to_string(),
        value: value.to_string(),
        description: description.to_string(),
    }
}

/// The text of a finite float: the number that its literal denotes.
fn number_text(literal: &str) -> String {
    literal.parse::<f64>().unwrap().to_string()
}

fn rows_of(text: &str) -> Vec<TableRow> {
    let document = parse(text).unwrap().unwrap();
    let leaves = flatten_document(&document);
    let floats: Vec<String> = finite_floats(&leaves).iter().map(|l| number_text(l)).collect();
    table_rows(&leaves, &floats).unwrap()
}

fn shown(value: &ScalarType) -> String {
    format_scalar_value(value).unwrap()
}

#[test]
fn values_are_shown_as_texts() {
    assert_eq!(shown(&ScalarType::String("a b")), "a b");
    assert_eq!(shown(&ScalarType::String("")), "");
    assert_eq!(shown(&ScalarType::Integer(42)), "42");
    assert_eq!(shown(&ScalarType::Integer(-42)), "-42");
    assert_eq!(shown(&ScalarType::Integer(i64::MIN)), "-9223372036854775808");
    assert_eq!(shown(&ScalarType::Boolean(true)), "true");
    assert_eq!(shown(&ScalarType::Boolean(false)), "false");
    assert_eq!(shown(&ScalarType::Null), "null");
    assert_eq!(shown(&ScalarType::List(vec![])), "");
    assert_eq!(shown(&ScalarType::Mapping(vec![])), "");
}

#[test]
fn infinities_and_nan_are_shown_as_floats_are_printed() {
    assert_eq!(shown(&ScalarType::Float(FloatValue::Infinity)), f64::INFINITY.to_string());
    assert_eq!(shown(&ScalarType::Float(FloatValue::NegInfinity)), f64::NEG_INFINITY.to_string());
    assert_eq!(shown(&ScalarType::Float(FloatValue::NaN)), f64::NAN.to_string());
}

#[test]
fn the_text_of_a_finite_float_is_the_callers() {
    assert_eq!(format_scalar_value(&ScalarType::Float(FloatValue::Decimal("42.5"))), None);
    assert_eq!(format_scalar_value(&ScalarType::Float(FloatValue::Decimal("1.23e+2"))), None);
    let float = Scalar { value: ScalarType::Float(FloatValue::Decimal("1.23e+2")), comment: None };
    let leaf = Leaf { name: "f".to_string(), scalar: &float };
    assert_eq!(table_row(&leaf, "123"), row("f", "123", ""));
    let one = Scalar { value: ScalarType::Integer(1), comment: None };
    let leaf = Leaf { name: "i".to_string(), scalar: &one };
    assert_eq!(table_row(&leaf, "123"), row("i", "1", ""));
}

#[test]
fn finite_floats_are_shown_as_numbers() {
    assert_eq!(rows_of("1.23e+2"), vec![row("", "123", "")]);
    assert_eq!(
        rows_of("a: 42.50\nb: [.5, x, -1e3, .inf]\nc: 1\nd: 5.\n"),
        vec![
            row("a", "42.5", ""),
            row("b.0", "0.5", ""),
            row("b.1", "x", ""),
            row("b.2", "-1000", ""),
            row("b.3", "inf", ""),
            row("c", "1", ""),
            row("d", "5", ""),
        ]
    );
}

#[test]
fn finite_floats_are_listed_in_the_order_of_the_leaves() {
    let document = parse("a: 42.50\nb: [.5, x, -1e3, .inf]\nc: 1\nd: 5.\n").unwrap().unwrap();
    let leaves = flatten_document(&document);
    assert_eq!(finite_floats(&leaves), vec!["42.50", ".5", "-1e3", "5."]);
    let document = parse("a: 1\nb: .nan\n").unwrap().unwrap();
    assert_eq!(finite_floats(&flatten_document(&document)), Vec::<&str>::new());
}

#[test]
fn each_finite_float_takes_the_next_text() {
    let document = parse("[1.5, a, 2.5, 3.5]").unwrap().unwrap();
    let leaves = flatten_document(&document);
    let floats = vec!["x".to_string(), "y".to_string(), "z".to_string()];
    assert_eq!(
        table_rows(&leaves, &floats).unwrap(),
        vec![row(".0", "x", ""), row(".1", "a", ""), row(".2", "y", ""), row(".3", "z", "")]
    );
}

#[test]
fn texts_must_be_as_many_as_the_finite_floats() {
    let document = parse("[1.5, a, 2.5]").unwrap().unwrap();
    let leaves = flatten_document(&document);
    let texts = |n: usize| -> Vec<String> { (0..n).map(|i| i.to_string()).collect() };
    assert_eq!(table_rows(&leaves, &texts(0)), None);
    assert_eq!(table_rows(&leaves, &texts(1)), None);
    assert!(table_rows(&leaves, &texts(2)).is_some());
    assert_eq!(table_rows(&leaves, &texts(3)), None);
    assert_eq!(render_markdown(&document, &texts(1)), Err(RenderError::Floats));
    assert_eq!(render_markdown(&document, &texts(3)), Err(RenderError::Floats));
    assert!(render_markdown(&document, &texts(2)).is_ok());
    let document = parse("a: 1").unwrap().unwrap();
    assert_eq!(render_markdown(&document, &texts(1)), Err(RenderError::Floats));
}

#[test]
fn a_scalar_document_is_one_row_without_a_name() {
    assert_eq!(rows_of("42 # answer"), vec![row("", "42", "answer")]);
    assert_eq!(rows_of("~"), vec![row("", "null", "")]);
}

#[test]
fn keys_are_joined_by_dots() {
    assert_eq!(
        rows_of("a:\n  b:\n    c: 1 # deep\n\n  d: x\ne: true\n"),
        vec![row("a.b.c", "1", "deep"), row("a.d", "x", ""), row("e", "true", "")]
    );
}

#[test]
fn indices_are_joined_by_dots() {
    assert_eq!(
        rows_of("a:\n  - x\n  - y: 1\n    z: [2, 3]\n"),
        vec![
            row("a.0", "x", ""),
            row("a.1.y", "1", ""),
            row("a.1.z.0", "2", ""),
            row("a.1.z.1", "3", ""),
        ]
    );
}

#[test]
fn a_list_at_the_root_starts_its_names_with_a_dot() {
    assert_eq!(rows_of("- a\n- b\n"), vec![row(".0", "a", ""), row(".1", "b", "")]);
    assert_eq!(rows_of("[[1], [2, 3]]"), vec![
        row(".0.0", "1", ""),
        row(".1.0", "2", ""),
        row(".1.1", "3", ""),
    ]);
}

#[test]
fn indices_count_in_decimal() {
    let mut text = String::new();
    for i in 0..12 {
        text.push_str(&format!("- {}\n", i));
    }
    let rows = rows_of(&text);
    assert_eq!(rows.len(), 12);
    assert_eq!(rows[9], row(".9", "9", ""));
    assert_eq!(rows[10], row(".10", "10", ""));
    assert_eq!(rows[11], row(".11", "11", ""));
}

#[test]
fn empty_collections_have_no_rows() {
    assert_eq!(rows_of("[]"), vec![]);
    assert_eq!(rows_of("{}"), vec![]);
    assert_eq!(rows_of("a: []\nb: 1\nc: {}\n"), vec![row("b", "1", "")]);
}

#[test]
fn repeated_keys_give_repeated_names() {
    assert_eq!(rows_of("a: 1\na: 2"), vec![row("a", "1", ""), row("a", "2", "")]);
}

#[test]
fn leaves_point_at_the_values_of_the_document() {
    let document = parse("a: 1\nb: [x]\n").unwrap().unwrap();
    let leaves = flatten_document(&document);
    assert_eq!(leaves.len(), 2);
    assert_eq!(leaves[0].name, "a");
    assert_eq!(*leaves[0].scalar, Scalar { value: ScalarType::Integer(1), comment: None });
    assert_eq!(leaves[1].name, "b.0");
    assert_eq!(*leaves[1].scalar, Scalar { value: ScalarType::String("x"), comment: None });
    assert_eq!(table_row(&leaves[1], ""), row("b.0", "x", ""));
}

#[test]
fn leaves_are_added_behind_those_that_are_there() {
    let one = Scalar { value: ScalarType::Integer(1), comment: Some("c".to_string()) };
    let list = Scalar {
        value: ScalarType::List(vec![
            Scalar { value: ScalarType::Null, comment: None },
            Scalar { value: ScalarType::Boolean(false), comment: None },
        ]),
        comment: None,
    };
    let entries = vec![
        MapItem { key: "k", value: Scalar { value: ScalarType::Integer(2), comment: None } },
        MapItem { key: "", value: Scalar { value: ScalarType::Integer(3), comment: None } },
    ];
    let mut leaves: Vec<Leaf> = Vec::new();
    flatten_scalar(&one, "first".to_string(), &mut leaves);
    flatten_scalar(&list, "p".to_string(), &mut leaves);
    flatten_entries(&entries, &"m".to_string(), &mut leaves);
    flatten_entries(&entries, &String::new(), &mut leaves);
    match &list.value {
        ScalarType::List(items) => flatten_items(items, &String::new(), &mut leaves),
        _ => unreachable!(),
    }
    assert_eq!(
        table_rows(&leaves, &vec![]).unwrap(),
        vec![
            row("first", "1", "c"),
            row("p.0", "null", ""),
            row("p.1", "false", ""),
            row("m.k", "2", ""),
            row("m.", "3", ""),
            row("k", "2", ""),
            row("", "3", ""),
            row(".0", "null", ""),
            row(".1", "false", ""),
        ]
    );
}

#[test]
fn the_template_is_a_table_with_a_row_for_each_row() {
    assert_eq!(
        TEMPLATE,
        r#"
| Name | Value | Description |
|------|-------|-------------|
{%- for row in rows %}
| {{ row.name }} | {{ row.value }} | {{ row.description }} |
{%- endfor %}
"#
    );
}

#[test]
fn a_document_is_written_as_a_table() {
    let document = parse("a: 1 # one\nb:\n  - x\n  - 2.50\nc: ~\n").unwrap().unwrap();
    assert_eq!(
        render_markdown(&document, &vec![number_text("2.50")]).unwrap(),
        "\n| Name | Value | Description |\n|------|-------|-------------|\n| a | 1 | one |\n| b.0 | x |  |\n| b.1 | 2.5 |  |\n| c | null |  |\n"
    );
}

#[test]
fn an_empty_table_has_its_head_only() {
    assert_eq!(
        render_rows(&vec![]).unwrap(),
        "\n| Name | Value | Description |\n|------|-------|-------------|\n"
    );
    let document = parse("[]").unwrap().unwrap();
    assert_eq!(
        render_markdown(&document, &vec![]).unwrap(),
        "\n| Name | Value | Description |\n|------|-------|-------------|\n"
    );
}

#[test]
fn cells_are_written_as_they_are() {
    let rows = vec![row("a|b", "<x> & {{ y }}", "\"q\""), row("", "", "")];
    assert_eq!(
        render_rows(&rows).unwrap(),
        "\n| Name | Value | Description |\n|------|-------|-------------|\n| a|b | <x> & {{ y }} | \"q\" |\n|  |  |  |\n"
    );
}
