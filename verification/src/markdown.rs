//! A document as a table: one row for each value that is neither a list nor
//! a mapping, named by the path that leads to it.

use vstd::prelude::*;
use vstd::string::*;
use crate::document::{
    entry_views, scalar_views, Document, FloatValue, FloatView, MapItem, MapItemView, Scalar,
    ScalarType, ScalarTypeView, ScalarView,
};
use crate::number::{decimal, signed_decimal, write_decimal, write_integer};

verus! {

/// The template of the table.
pub const TEMPLATE: &'static str =
    "\n| Name | Value | Description |\n|------|-------|-------------|\n{%- for row in rows %}\n| {{ row.name }} | {{ row.value }} | {{ row.description }} |\n{%- endfor %}\n";

/// A value of the document that is neither a list nor a mapping, with the
/// path that leads to it.
pub struct Leaf<'d, 'a> {
    /// The keys and indices on the way to the value, joined by dots.
    pub name: String,
    /// The value.
    pub scalar: &'d Scalar<'a>,
}

/// What a [`Leaf`] stands for.
pub struct LeafView {
    pub name: Seq<char>,
    pub scalar: ScalarView,
}

impl<'d, 'a> View for Leaf<'d, 'a> {
    type V = LeafView;

    open spec fn view(&self) -> LeafView {
        LeafView { name: self.name@, scalar: (*self.scalar)@ }
    }
}

/// What a run of leaves stands for.
pub open spec fn leaf_views(leaves: Seq<Leaf>) -> Seq<LeafView> {
    Seq::new(leaves.len(), |i: int| leaves[i]@)
}

/// A row of the table.
#[derive(Debug, PartialEq)]
pub struct TableRow {
    pub name: String,
    pub value: String,
    pub description: String,
}

/// A row as three texts: name, value, description.
pub type RowView = (Seq<char>, Seq<char>, Seq<char>);

impl View for TableRow {
    type V = RowView;

    open spec fn view(&self) -> RowView {
        (self.name@, self.value@, self.description@)
    }
}

/// What a run of rows stands for.
pub open spec fn row_views(rows: Seq<TableRow>) -> Seq<RowView> {
    Seq::new(rows.len(), |i: int| rows[i]@)
}

/// The path of an entry of a mapping: its key, behind the path of the
/// mapping and a dot where the mapping has a path.
pub open spec fn entry_path(path: Seq<char>, key: Seq<char>) -> Seq<char> {
    if path.len() == 0 {
        key
    } else {
        path + seq!['.'] + key
    }
}

/// The path of an item of a list: its index, behind the path of the list and
/// a dot.
pub open spec fn item_path(path: Seq<char>, index: nat) -> Seq<char> {
    path + seq!['.'] + decimal(index)
}

/// The leaves at and below a value, in depth-first order.
pub open spec fn leaves_of(scalar: ScalarView, path: Seq<char>) -> Seq<LeafView>
    decreases scalar,
{
    match scalar.value {
        ScalarTypeView::Mapping(entries) => entry_leaves(entries, path, entries.len()),
        ScalarTypeView::List(items) => item_leaves(items, path, items.len()),
        _ => seq![LeafView { name: path, scalar }],
    }
}

/// The leaves below the first `count` entries of a mapping.
pub open spec fn entry_leaves(entries: Seq<MapItemView>, path: Seq<char>, count: nat) -> Seq<
    LeafView,
>
    decreases entries, count,
{
    if count == 0 || count > entries.len() {
        Seq::empty()
    } else {
        entry_leaves(entries, path, (count - 1) as nat) + leaves_of(
            entries[count - 1].value,
            entry_path(path, entries[count - 1].key),
        )
    }
}

/// The leaves below the first `count` items of a list.
pub open spec fn item_leaves(items: Seq<ScalarView>, path: Seq<char>, count: nat) -> Seq<LeafView>
    decreases items, count,
{
    if count == 0 || count > items.len() {
        Seq::empty()
    } else {
        item_leaves(items, path, (count - 1) as nat) + leaves_of(
            items[count - 1],
            item_path(path, (count - 1) as nat),
        )
    }
}

/// A value as the table shows it, where this library can say: a string as it
/// is, an integer in decimal, a boolean and null by name, the infinities and
/// NaN as floats are printed, and nothing for a list or a mapping. A finite
/// float shows as the number that it denotes, which takes floating-point
/// arithmetic to work out: its text is `None` here and comes from the caller.
pub open spec fn value_text(value: ScalarTypeView) -> Option<Seq<char>> {
    match value {
        ScalarTypeView::String(text) => Some(text),
        ScalarTypeView::Integer(n) => Some(signed_decimal(n as int)),
        ScalarTypeView::Float(FloatView::Infinity) => Some("inf"@),
        ScalarTypeView::Float(FloatView::NegInfinity) => Some("-inf"@),
        ScalarTypeView::Float(FloatView::NaN) => Some("NaN"@),
        ScalarTypeView::Float(FloatView::Decimal(_)) => None,
        ScalarTypeView::Boolean(b) => Some(
            if b {
                "true"@
            } else {
                "false"@
            },
        ),
        ScalarTypeView::Null => Some("null"@),
        _ => Some(Seq::empty()),
    }
}

/// The literals of the finite floats among the first `count` leaves, in the
/// order of the leaves.
pub open spec fn float_literals(leaves: Seq<LeafView>, count: nat) -> Seq<Seq<char>>
    decreases count,
{
    if count == 0 || count > leaves.len() {
        Seq::empty()
    } else {
        match leaves[count - 1].scalar.value {
            ScalarTypeView::Float(FloatView::Decimal(literal)) => float_literals(
                leaves,
                (count - 1) as nat,
            ).push(literal),
            _ => float_literals(leaves, (count - 1) as nat),
        }
    }
}

/// The row of a leaf: its path; its value as the table shows it, which for a
/// finite float is `float`; and its comment, or nothing where it has none.
pub open spec fn row_of(leaf: LeafView, float: Seq<char>) -> RowView {
    (
        leaf.name,
        match value_text(leaf.scalar.value) {
            Some(text) => text,
            None => float,
        },
        match leaf.scalar.comment {
            Some(text) => text,
            None => Seq::empty(),
        },
    )
}

/// The rows of the first `count` leaves, in their order. `floats` holds the
/// texts of the finite floats, in the order of [`float_literals`].
pub open spec fn rows_from(leaves: Seq<LeafView>, floats: Seq<Seq<char>>, count: nat) -> Seq<
    RowView,
>
    decreases count,
{
    if count == 0 || count > leaves.len() {
        Seq::empty()
    } else {
        rows_from(leaves, floats, (count - 1) as nat).push(
            row_of(leaves[count - 1], floats[float_literals(leaves, (count - 1) as nat).len() as int]),
        )
    }
}

/// What a run of texts stands for.
pub open spec fn text_views(texts: Seq<String>) -> Seq<Seq<char>> {
    Seq::new(texts.len(), |i: int| texts[i]@)
}

/// The rows of a document: one for each leaf, in depth-first order, with the
/// texts of its finite floats taken from `floats`.
pub open spec fn rows_of(document: ScalarView, floats: Seq<Seq<char>>) -> Seq<RowView> {
    let leaves = leaves_of(document, Seq::empty());
    rows_from(leaves, floats, leaves.len())
}

/// The line of a row in the table.
pub open spec fn row_line(row: RowView) -> Seq<char> {
    "\n| "@ + row.0 + " | "@ + row.1 + " | "@ + row.2 + " |"@
}

/// The lines of the first `count` rows, one behind the other.
pub open spec fn row_lines(rows: Seq<RowView>, count: nat) -> Seq<char>
    decreases count,
{
    if count == 0 || count > rows.len() {
        Seq::empty()
    } else {
        row_lines(rows, (count - 1) as nat) + row_line(rows[count - 1])
    }
}

/// The table: its head, a line for each row, and the end of the last line.
pub open spec fn table_text(rows: Seq<RowView>) -> Seq<char> {
    "\n| Name | Value | Description |\n|------|-------|-------------|"@ + row_lines(
        rows,
        rows.len(),
    ) + "\n"@
}

/// Writes a value as the table shows it; nothing for a finite float, whose
/// text is the caller's to give.
pub fn format_scalar_value(value: &ScalarType) -> (r: Option<String>)
    ensures
        match value_text(value@) {
            Some(text) => r matches Some(written) && written@ == text,
            None => r is None,
        },
{
    let mut out = String::new();
    match value {
        ScalarType::String(text) => {
            out.append(text);
        },
        ScalarType::Integer(n) => {
            write_integer(*n, &mut out);
        },
        ScalarType::Float(FloatValue::Infinity) => {
            out.append("inf");
        },
        ScalarType::Float(FloatValue::NegInfinity) => {
            out.append("-inf");
        },
        ScalarType::Float(FloatValue::NaN) => {
            out.append("NaN");
        },
        ScalarType::Float(FloatValue::Decimal(_)) => {
            return None;
        },
        ScalarType::Boolean(b) => {
            if *b {
                out.append("true");
            } else {
                out.append("false");
            }
        },
        ScalarType::Null => {
            out.append("null");
        },
        _ => {},
    }
    assert(Some(out@) =~= value_text(value@));
    Some(out)
}

/// Adds the leaves at and below `scalar` to `rows`, in depth-first order.
/// `key` is the path that leads to `scalar`.
pub fn flatten_scalar<'d, 'a>(scalar: &'d Scalar<'a>, key: String, rows: &mut Vec<Leaf<'d, 'a>>)
    ensures
        leaf_views(final(rows)@) == leaf_views(old(rows)@) + leaves_of(scalar@, key@),
    decreases scalar,
{
    match &scalar.value {
        ScalarType::Mapping(entries) => {
            flatten_entries(entries, &key, rows);
        },
        ScalarType::List(items) => {
            flatten_items(items, &key, rows);
        },
        _ => {
            rows.push(Leaf { name: key, scalar });
            assert(leaf_views(rows@) =~= leaf_views(old(rows)@) + leaves_of(scalar@, key@));
        },
    }
}

/// Adds the leaves below the entries of a mapping to `rows`. `key` is the
/// path that leads to the mapping.
pub fn flatten_entries<'d, 'a>(
    entries: &'d Vec<MapItem<'a>>,
    key: &String,
    rows: &mut Vec<Leaf<'d, 'a>>,
)
    ensures
        leaf_views(final(rows)@) == leaf_views(old(rows)@) + entry_leaves(
            entry_views(entries@),
            key@,
            entries@.len(),
        ),
    decreases entries,
{
    let len = entries.len();
    let mut i: usize = 0;
    assert(leaf_views(rows@) =~= leaf_views(old(rows)@) + Seq::<LeafView>::empty());
    while i < len
        invariant
            i <= len,
            len == entries@.len(),
            leaf_views(rows@) == leaf_views(old(rows)@) + entry_leaves(
                entry_views(entries@),
                key@,
                i as nat,
            ),
        decreases len - i,
    {
        let entry = &entries[i];
        let mut path = key.clone();
        if !key.as_str().is_empty() {
            proof {
                reveal_strlit(".");
            }
            path.append(".");
        }
        path.append(entry.key);
        assert(path@ =~= entry_path(key@, entry.key@));
        flatten_scalar(&entry.value, path, rows);
        assert(leaf_views(rows@) =~= leaf_views(old(rows)@) + entry_leaves(
            entry_views(entries@),
            key@,
            (i + 1) as nat,
        ));
        i = i + 1;
    }
}

/// Adds the leaves below the items of a list to `rows`. `key` is the path
/// that leads to the list.
pub fn flatten_items<'d, 'a>(
    items: &'d Vec<Scalar<'a>>,
    key: &String,
    rows: &mut Vec<Leaf<'d, 'a>>,
)
    ensures
        leaf_views(final(rows)@) == leaf_views(old(rows)@) + item_leaves(
            scalar_views(items@),
            key@,
            items@.len(),
        ),
    decreases items,
{
    let len = items.len();
    let mut i: usize = 0;
    assert(leaf_views(rows@) =~= leaf_views(old(rows)@) + Seq::<LeafView>::empty());
    while i < len
        invariant
            i <= len,
            len == items@.len(),
            leaf_views(rows@) == leaf_views(old(rows)@) + item_leaves(
                scalar_views(items@),
                key@,
                i as nat,
            ),
        decreases len - i,
    {
        let mut path = key.clone();
        proof {
            reveal_strlit(".");
        }
        path.append(".");
        write_decimal(i as u128, &mut path);
        assert(path@ =~= item_path(key@, i as nat));
        flatten_scalar(&items[i], path, rows);
        assert(leaf_views(rows@) =~= leaf_views(old(rows)@) + item_leaves(
            scalar_views(items@),
            key@,
            (i + 1) as nat,
        ));
        i = i + 1;
    }
}

/// The leaves of a document, in depth-first order.
pub fn flatten_document<'d, 'a>(document: &'d Document<'a>) -> (rows: Vec<Leaf<'d, 'a>>)
    ensures
        leaf_views(rows@) == leaves_of(document@, Seq::empty()),
{
    let mut rows: Vec<Leaf<'d, 'a>> = Vec::new();
    assert(leaf_views(rows@) =~= Seq::<LeafView>::empty());
    flatten_scalar(&document.root, String::new(), &mut rows);
    rows
}

/// The literals of the finite floats among the leaves, in the order of the
/// leaves: what the caller has to turn into the texts of those floats.
pub fn finite_floats<'a>(leaves: &Vec<Leaf<'_, 'a>>) -> (literals: Vec<&'a str>)
    ensures
        literals@.len() == float_literals(leaf_views(leaves@), leaves@.len()).len(),
        forall|i: int|
            0 <= i < literals@.len() ==> (#[trigger] literals@[i])@ == float_literals(
                leaf_views(leaves@),
                leaves@.len(),
            )[i],
{
    let len = leaves.len();
    let mut literals: Vec<&'a str> = Vec::new();
    let mut i: usize = 0;
    while i < len
        invariant
            i <= len,
            len == leaves@.len(),
            literals@.len() == float_literals(leaf_views(leaves@), i as nat).len(),
            forall|j: int|
                0 <= j < literals@.len() ==> (#[trigger] literals@[j])@ == float_literals(
                    leaf_views(leaves@),
                    i as nat,
                )[j],
        decreases len - i,
    {
        match &leaves[i].scalar.value {
            ScalarType::Float(FloatValue::Decimal(literal)) => {
                literals.push(*literal);
            },
            _ => {},
        }
        i = i + 1;
    }
    literals
}

/// The row of a leaf. `float` is the text of the leaf where it is a finite
/// float, and is not looked at where it is none.
pub fn table_row(leaf: &Leaf, float: &str) -> (row: TableRow)
    ensures
        row@ == row_of(leaf@, float@),
{
    let description = match &leaf.scalar.comment {
        Some(text) => text.clone(),
        None => String::new(),
    };
    let value = match format_scalar_value(&leaf.scalar.value) {
        Some(text) => text,
        None => float.to_owned(),
    };
    TableRow { name: leaf.name.clone(), value, description }
}

/// The rows of a run of leaves, in their order. `floats` holds the texts of
/// the finite floats among the leaves, in the order of [`finite_floats`];
/// there are no rows where it holds more or fewer texts than there are such
/// floats.
pub fn table_rows(leaves: &Vec<Leaf>, floats: &Vec<String>) -> (r: Option<Vec<TableRow>>)
    ensures
        match r {
            Some(rows) => floats@.len() == float_literals(leaf_views(leaves@), leaves@.len()).len()
                && row_views(rows@) == rows_from(
                leaf_views(leaves@),
                text_views(floats@),
                leaves@.len(),
            ),
            None => floats@.len() != float_literals(leaf_views(leaves@), leaves@.len()).len(),
        },
{
    let len = leaves.len();
    let mut rows: Vec<TableRow> = Vec::new();
    let mut used: usize = 0;
    let mut i: usize = 0;
    assert(row_views(rows@) =~= Seq::<RowView>::empty());
    while i < len
        invariant
            i <= len,
            len == leaves@.len(),
            used <= i,
            used <= floats@.len(),
            used == float_literals(leaf_views(leaves@), i as nat).len(),
            row_views(rows@) == rows_from(leaf_views(leaves@), text_views(floats@), i as nat),
        decreases len - i,
    {
        let ghost before = rows@;
        let finite = match &leaves[i].scalar.value {
            ScalarType::Float(FloatValue::Decimal(_)) => true,
            _ => false,
        };
        if finite {
            if used >= floats.len() {
                proof {
                    lemma_float_literals_grow(leaf_views(leaves@), (i + 1) as nat, len as nat);
                }
                return None;
            }
            rows.push(table_row(&leaves[i], floats[used].as_str()));
            used = used + 1;
        } else {
            rows.push(table_row(&leaves[i], ""));
        }
        assert(row_views(rows@) =~= row_views(before).push(rows@.last()@));
        i = i + 1;
    }
    if used == floats.len() {
        Some(rows)
    } else {
        None
    }
}

/// The more leaves, the more finite floats.
pub proof fn lemma_float_literals_grow(leaves: Seq<LeafView>, fewer: nat, more: nat)
    requires
        fewer <= more <= leaves.len(),
    ensures
        float_literals(leaves, fewer).len() <= float_literals(leaves, more).len(),
    decreases more - fewer,
{
    if fewer < more {
        lemma_float_literals_grow(leaves, fewer, (more - 1) as nat);
    }
}

#[verifier::external_type_specification]
#[verifier::external_body]
pub struct ExTemplateError(tera::Error);

/// Why a table could not be written.
#[derive(Debug, PartialEq)]
pub enum RenderError {
    /// The texts handed in for the finite floats are more or fewer than the
    /// finite floats of the document.
    Floats,
    /// The template engine failed, with these words.
    Template(String),
}

/// Whether the template engine writes a table for a template and the rows
/// handed to it as `rows`, and if so, which.
pub uninterp spec fn rendered_table(template: Seq<char>, rows: Seq<RowView>) -> Option<Seq<char>>;

/// Renders the table with `tera::Tera::one_off`, escaping off, on a context
/// that holds the rows under `rows`, each row a map from `name`, `value` and
/// `description` to its texts. The contract claims that whether a table comes
/// back depends on the template and the rows alone, which holds of a template
/// that reads nothing else, the one of this library; and that a table that
/// comes back is the head, then for each row a line of its three texts as
/// they are between bars, then a line end. `Context::insert` panics where a
/// value cannot be serialised, which a map of texts always can.
#[verifier::external_body]
fn render_template(template: &str, rows: &Vec<TableRow>) -> (r: Result<String, tera::Error>)
    requires
        template@ == TEMPLATE@,
    ensures
        match r {
            Ok(text) => rendered_table(template@, row_views(rows@)) == Some(text@) && text@
                == table_text(row_views(rows@)),
            Err(_) => rendered_table(template@, row_views(rows@)) is None,
        },
{
    let maps: Vec<std::collections::BTreeMap<&str, &str>> = rows.iter().map(
        |row|
            std::collections::BTreeMap::from(
                [
                    ("name", row.name.as_str()),
                    ("value", row.value.as_str()),
                    ("description", row.description.as_str()),
                ],
            ),
    ).collect();
    let mut context = tera::Context::new();
    context.insert("rows", &maps);
    tera::Tera::one_off(template, &context, false)
}

/// The words of a tera error, as its `Display` writes them. Nothing is
/// claimed of them.
#[verifier::external_body]
fn error_text(error: &tera::Error) -> String {
    error.to_string()
}

/// Whether the outcome of writing a table is the one that the template
/// engine gives for the rows: the table, which is [`table_text`], or its
/// failure.
pub open spec fn writes_table(r: Result<String, RenderError>, rows: Seq<RowView>) -> bool {
    match r {
        Ok(text) => rendered_table(TEMPLATE@, rows) == Some(text@) && text@ == table_text(rows),
        Err(error) => error is Template && rendered_table(TEMPLATE@, rows) is None,
    }
}

/// Writes rows as a table.
pub fn render_rows(rows: &Vec<TableRow>) -> (r: Result<String, RenderError>)
    ensures
        writes_table(r, row_views(rows@)),
{
    match render_template(TEMPLATE, rows) {
        Ok(text) => Ok(text),
        Err(error) => Err(RenderError::Template(error_text(&error))),
    }
}

/// Writes a document as a table: a row for each of its leaves, in
/// depth-first order. `floats` holds the texts of the finite floats of the
/// document, in the order of its leaves; the numbers that they denote are
/// not worked out here.
pub fn render_markdown(document: &Document, floats: &Vec<String>) -> (r: Result<
    String,
    RenderError,
>)
    ensures
        ({
            let leaves = leaves_of(document@, Seq::empty());
            if floats@.len() == float_literals(leaves, leaves.len()).len() {
                writes_table(r, rows_of(document@, text_views(floats@)))
            } else {
                r == Err::<String, RenderError>(RenderError::Floats)
            }
        }),
{
    let leaves = flatten_document(document);
    match table_rows(&leaves, floats) {
        Some(rows) => render_rows(&rows),
        None => Err(RenderError::Floats),
    }
}

} // verus!
