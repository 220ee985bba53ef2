//! The document model: a tree of values, each with the comment that the
//! source attached to it.

use vstd::prelude::*;

verus! {

/// A floating literal. Infinities and NaN are told apart; a finite literal is
/// kept as it was written, a decimal numeral that the standard library's
/// floating-point parser accepts.
#[derive(Debug, Clone, Copy, PartialEq)]
pub enum FloatValue<'a> {
    Infinity,
    NegInfinity,
    NaN,
    Decimal(&'a str),
}

/// What a value is. Strings and keys are pieces of the source text.
#[derive(Debug, PartialEq)]
pub enum ScalarType<'a> {
    Null,
    String(&'a str),
    Integer(i64),
    Float(FloatValue<'a>),
    Boolean(bool),
    /// A sequence: its items in source order.
    List(Vec<Scalar<'a>>),
    /// A mapping: its entries in source order.
    Mapping(Vec<MapItem<'a>>),
}

/// A value of the document together with its comment. A list or a mapping
/// has none: its comments belong to its items.
#[derive(Debug, PartialEq)]
pub struct Scalar<'a> {
    pub value: ScalarType<'a>,
    /// What the comment says, without its marks and the white space around
    /// it; the lines of a comment of several lines joined by single spaces.
    pub comment: Option<String>,
}

/// One entry of a mapping. Entries keep the order of the source; a key may
/// occur more than once.
#[derive(Debug, PartialEq)]
pub struct MapItem<'a> {
    pub key: &'a str,
    pub value: Scalar<'a>,
}

/// The single top-level value of a source text.
#[derive(Debug)]
pub struct Document<'a> {
    pub root: Scalar<'a>,
}

/// What a [`FloatValue`] stands for.
pub enum FloatView {
    Infinity,
    NegInfinity,
    NaN,
    Decimal(Seq<char>),
}

/// What a [`ScalarType`] stands for.
pub enum ScalarTypeView {
    Null,
    String(Seq<char>),
    Integer(i64),
    Float(FloatView),
    Boolean(bool),
    List(Seq<ScalarView>),
    Mapping(Seq<MapItemView>),
}

/// What a [`Scalar`] stands for.
pub struct ScalarView {
    pub value: ScalarTypeView,
    pub comment: Option<Seq<char>>,
}

/// What a [`MapItem`] stands for.
pub struct MapItemView {
    pub key: Seq<char>,
    pub value: ScalarView,
}

impl<'a> View for FloatValue<'a> {
    type V = FloatView;

    open spec fn view(&self) -> FloatView {
        match *self {
            FloatValue::Infinity => FloatView::Infinity,
            FloatValue::NegInfinity => FloatView::NegInfinity,
            FloatValue::NaN => FloatView::NaN,
            FloatValue::Decimal(text) => FloatView::Decimal(text@),
        }
    }
}

/// The view of an optional comment.
pub open spec fn comment_view(comment: Option<String>) -> Option<Seq<char>> {
    match comment {
        Some(text) => Some(text@),
        None => None,
    }
}

/// What a run of scalars stands for.
pub open spec fn scalar_views(items: Seq<Scalar>) -> Seq<ScalarView>
    decreases items,
{
    Seq::new(
        items.len(),
        |i: int|
            if 0 <= i < items.len() {
                items[i]@
            } else {
                arbitrary()
            },
    )
}

/// What a run of entries stands for.
pub open spec fn entry_views(entries: Seq<MapItem>) -> Seq<MapItemView>
    decreases entries,
{
    Seq::new(
        entries.len(),
        |i: int|
            if 0 <= i < entries.len() {
                entries[i]@
            } else {
                arbitrary()
            },
    )
}

impl<'a> View for Scalar<'a> {
    type V = ScalarView;

    open spec fn view(&self) -> ScalarView
        decreases self,
    {
        ScalarView { value: self.value@, comment: comment_view(self.comment) }
    }
}

impl<'a> View for ScalarType<'a> {
    type V = ScalarTypeView;

    open spec fn view(&self) -> ScalarTypeView
        decreases self,
    {
        match *self {
            ScalarType::Null => ScalarTypeView::Null,
            ScalarType::String(text) => ScalarTypeView::String(text@),
            ScalarType::Integer(n) => ScalarTypeView::Integer(n),
            ScalarType::Float(f) => ScalarTypeView::Float(f@),
            ScalarType::Boolean(b) => ScalarTypeView::Boolean(b),
            ScalarType::List(items) => ScalarTypeView::List(scalar_views(items@)),
            ScalarType::Mapping(entries) => ScalarTypeView::Mapping(entry_views(entries@)),
        }
    }
}

impl<'a> View for MapItem<'a> {
    type V = MapItemView;

    open spec fn view(&self) -> MapItemView
        decreases self,
    {
        MapItemView { key: self.key@, value: self.value@ }
    }
}

impl<'a> View for Document<'a> {
    type V = ScalarView;

    open spec fn view(&self) -> ScalarView {
        self.root@
    }
}

/// Whether a result is what an outcome says: the value that it describes, or
/// the same error.
pub open spec fn yields<T: View, E>(result: Result<T, E>, outcome: Result<T::V, E>) -> bool {
    match result {
        Ok(value) => outcome == Ok::<T::V, E>(value@),
        Err(error) => outcome == Err::<T::V, E>(error),
    }
}

/// Whether a result is what an outcome says: the run of scalars that it
/// describes, or the same error.
pub open spec fn yields_items<E>(
    result: Result<Vec<Scalar>, E>,
    outcome: Result<Seq<ScalarView>, E>,
) -> bool {
    match result {
        Ok(items) => outcome == Ok::<Seq<ScalarView>, E>(scalar_views(items@)),
        Err(error) => outcome == Err::<Seq<ScalarView>, E>(error),
    }
}

/// Whether a result is what an outcome says: the run of entries that it
/// describes, or the same error.
pub open spec fn yields_entries<E>(
    result: Result<Vec<MapItem>, E>,
    outcome: Result<Seq<MapItemView>, E>,
) -> bool {
    match result {
        Ok(entries) => outcome == Ok::<Seq<MapItemView>, E>(entry_views(entries@)),
        Err(error) => outcome == Err::<Seq<MapItemView>, E>(error),
    }
}

/// Whether a result is what an outcome says: the document that it describes,
/// no document, or the same error.
pub open spec fn yields_document<E>(
    result: Result<Option<Document>, E>,
    outcome: Result<Option<ScalarView>, E>,
) -> bool {
    match result {
        Ok(Some(document)) => outcome == Ok::<Option<ScalarView>, E>(Some(document@)),
        Ok(None) => outcome == Ok::<Option<ScalarView>, E>(None),
        Err(error) => outcome == Err::<Option<ScalarView>, E>(error),
    }
}

impl<'a> Clone for Scalar<'a> {
    fn clone(&self) -> (r: Self)
        ensures
            r@ == self@,
        decreases self,
    {
        let comment = match &self.comment {
            Some(text) => Some(text.clone()),
            None => None,
        };
        Scalar { value: self.value.clone(), comment }
    }
}

impl<'a> Clone for ScalarType<'a> {
    fn clone(&self) -> (r: Self)
        ensures
            r@ == self@,
        decreases self,
    {
        match self {
            ScalarType::Null => ScalarType::Null,
            ScalarType::String(text) => ScalarType::String(text),
            ScalarType::Integer(n) => ScalarType::Integer(*n),
            ScalarType::Float(f) => ScalarType::Float(*f),
            ScalarType::Boolean(b) => ScalarType::Boolean(*b),
            ScalarType::List(items) => ScalarType::List(clone_scalars(items)),
            ScalarType::Mapping(entries) => ScalarType::Mapping(clone_entries(entries)),
        }
    }
}

impl<'a> Clone for MapItem<'a> {
    fn clone(&self) -> (r: Self)
        ensures
            r@ == self@,
        decreases self,
    {
        MapItem { key: self.key, value: self.value.clone() }
    }
}

/// A copy of a run of scalars.
pub fn clone_scalars<'a>(items: &Vec<Scalar<'a>>) -> (copy: Vec<Scalar<'a>>)
    ensures
        scalar_views(copy@) == scalar_views(items@),
    decreases items,
{
    let mut copy: Vec<Scalar<'a>> = Vec::new();
    let mut i: usize = 0;
    while i < items.len()
        invariant
            i <= items@.len(),
            copy@.len() == i,
            forall|j: int| 0 <= j < i ==> (#[trigger] copy@[j])@ == items@[j]@,
        decreases items@.len() - i,
    {
        copy.push(items[i].clone());
        i = i + 1;
    }
    assert(scalar_views(copy@) =~= scalar_views(items@));
    copy
}

/// A copy of a run of entries.
pub fn clone_entries<'a>(entries: &Vec<MapItem<'a>>) -> (copy: Vec<MapItem<'a>>)
    ensures
        entry_views(copy@) == entry_views(entries@),
    decreases entries,
{
    let mut copy: Vec<MapItem<'a>> = Vec::new();
    let mut i: usize = 0;
    while i < entries.len()
        invariant
            i <= entries@.len(),
            copy@.len() == i,
            forall|j: int| 0 <= j < i ==> (#[trigger] copy@[j])@ == entries@[j]@,
        decreases entries@.len() - i,
    {
        copy.push(entries[i].clone());
        i = i + 1;
    }
    assert(entry_views(copy@) =~= entry_views(entries@));
    copy
}

} // verus!
