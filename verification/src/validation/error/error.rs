use crate::error::{
    EnumerateErrorParams, ExclusiveMaximumErrorParams, ExclusiveMinimumErrorParams, Failure,
    FormatErrorParams, MaxItemsErrorParams, MaxLengthErrorParams, MaxPropertiesErrorParams,
    MaximumErrorParams, Message, MinItemsErrorParams, MinLengthErrorParams,
    MinPropertiesErrorParams, MinimumErrorParams, MultipleOfErrorParams, PatternErrorParams,
    UniqueItemsErrorParams,
};
use vstd::prelude::*;

verus! {

/// One violation found on a value: the message of a violated constraint, a custom text, or the
/// aggregate of the violations found inside a composite value.
#[derive(Debug)]
pub enum Error {
    Minimum(Message<MinimumErrorParams>),
    Maximum(Message<MaximumErrorParams>),
    ExclusiveMinimum(Message<ExclusiveMinimumErrorParams>),
    ExclusiveMaximum(Message<ExclusiveMaximumErrorParams>),
    MultipleOf(Message<MultipleOfErrorParams>),
    MinLength(Message<MinLengthErrorParams>),
    MaxLength(Message<MaxLengthErrorParams>),
    Pattern(Message<PatternErrorParams>),
    Format(Message<FormatErrorParams>),
    MinItems(Message<MinItemsErrorParams>),
    MaxItems(Message<MaxItemsErrorParams>),
    UniqueItems(Message<UniqueItemsErrorParams>),
    MinProperties(Message<MinPropertiesErrorParams>),
    MaxProperties(Message<MaxPropertiesErrorParams>),
    Enumerate(Message<EnumerateErrorParams>),
    Custom(String),
    Items(ArrayErrors),
    Properties(ObjectErrors),
}

/// The violations of one field, in the order in which its constraints were declared.
pub type VecErrors = Vec<Error>;

/// The violations of a sequence: those of the sequence itself and, by index, those of its elements.
#[derive(Debug)]
pub struct ArrayErrors {
    pub errors: VecErrors,
    pub items: Vec<(usize, Errors)>,
}

/// The violations of the fields of one struct, by field name, in the order in which the names
/// were first reported.
#[derive(Debug)]
pub struct MapErrors {
    pub entries: Vec<(&'static str, VecErrors)>,
}

/// The violations of a nested struct: those of the struct as a whole and those of its fields.
#[derive(Debug)]
pub struct ObjectErrors {
    pub errors: VecErrors,
    pub properties: MapErrors,
}

/// The full validation result of one value.
#[derive(Debug)]
pub enum Errors {
    Array(ArrayErrors),
    Object(ObjectErrors),
    NewType(VecErrors),
}

/// An [`Error`] as contracts see it.
pub enum ErrorView {
    /// The message of a violated constraint: what was violated, and the rendered text.
    Message { failure: Failure, text: Seq<char> },
    Custom(Seq<char>),
    Items(ArrayErrorsView),
    Properties(ObjectErrorsView),
}

/// An [`ArrayErrors`] as contracts see it.
pub struct ArrayErrorsView {
    pub errors: Seq<ErrorView>,
    pub items: Seq<(nat, ErrorsView)>,
}

/// An [`ObjectErrors`] as contracts see it.
pub struct ObjectErrorsView {
    pub errors: Seq<ErrorView>,
    pub properties: Seq<(Seq<char>, Seq<ErrorView>)>,
}

/// An [`Errors`] as contracts see it.
pub enum ErrorsView {
    Array(ArrayErrorsView),
    Object(ObjectErrorsView),
    NewType(Seq<ErrorView>),
}

pub open spec fn error_view(error: Error) -> ErrorView
    decreases error,
{
    match error {
        Error::Minimum(m) => ErrorView::Message { failure: m.error.failure(), text: m.text@ },
        Error::Maximum(m) => ErrorView::Message { failure: m.error.failure(), text: m.text@ },
        Error::ExclusiveMinimum(m) => ErrorView::Message {
            failure: m.error.failure(),
            text: m.text@,
        },
        Error::ExclusiveMaximum(m) => ErrorView::Message {
            failure: m.error.failure(),
            text: m.text@,
        },
        Error::MultipleOf(m) => ErrorView::Message { failure: m.error.failure(), text: m.text@ },
        Error::MinLength(m) => ErrorView::Message { failure: m.error.failure(), text: m.text@ },
        Error::MaxLength(m) => ErrorView::Message { failure: m.error.failure(), text: m.text@ },
        Error::Pattern(m) => ErrorView::Message { failure: m.error.failure(), text: m.text@ },
        Error::Format(m) => ErrorView::Message { failure: m.error.failure(), text: m.text@ },
        Error::MinItems(m) => ErrorView::Message { failure: m.error.failure(), text: m.text@ },
        Error::MaxItems(m) => ErrorView::Message { failure: m.error.failure(), text: m.text@ },
        Error::UniqueItems(m) => ErrorView::Message { failure: m.error.failure(), text: m.text@ },
        Error::MinProperties(m) => ErrorView::Message { failure: m.error.failure(), text: m.text@ },
        Error::MaxProperties(m) => ErrorView::Message { failure: m.error.failure(), text: m.text@ },
        Error::Enumerate(m) => ErrorView::Message { failure: m.error.failure(), text: m.text@ },
        Error::Custom(text) => ErrorView::Custom(text@),
        Error::Items(array) => ErrorView::Items(array_errors_view(array)),
        Error::Properties(object) => ErrorView::Properties(object_errors_view(object)),
    }
}

pub open spec fn vec_errors_view(errors: VecErrors) -> Seq<ErrorView>
    decreases errors,
{
    Seq::new(
        errors@.len(),
        |i: int|
            if 0 <= i < errors@.len() {
                error_view(errors@[i])
            } else {
                arbitrary()
            },
    )
}

pub open spec fn items_view(items: Vec<(usize, Errors)>) -> Seq<(nat, ErrorsView)>
    decreases items,
{
    Seq::new(
        items@.len(),
        |i: int|
            if 0 <= i < items@.len() {
                (items@[i].0 as nat, errors_view(items@[i].1))
            } else {
                arbitrary()
            },
    )
}

pub open spec fn entries_view(entries: Vec<(&'static str, VecErrors)>) -> Seq<
    (Seq<char>, Seq<ErrorView>),
>
    decreases entries,
{
    Seq::new(
        entries@.len(),
        |i: int|
            if 0 <= i < entries@.len() {
                (entries@[i].0@, vec_errors_view(entries@[i].1))
            } else {
                arbitrary()
            },
    )
}

pub open spec fn array_errors_view(array: ArrayErrors) -> ArrayErrorsView
    decreases array,
{
    ArrayErrorsView { errors: vec_errors_view(array.errors), items: items_view(array.items) }
}

pub open spec fn object_errors_view(object: ObjectErrors) -> ObjectErrorsView
    decreases object,
{
    ObjectErrorsView {
        errors: vec_errors_view(object.errors),
        properties: entries_view(object.properties.entries),
    }
}

pub open spec fn errors_view(errors: Errors) -> ErrorsView
    decreases errors,
{
    match errors {
        Errors::Array(array) => ErrorsView::Array(array_errors_view(array)),
        Errors::Object(object) => ErrorsView::Object(object_errors_view(object)),
        Errors::NewType(list) => ErrorsView::NewType(vec_errors_view(list)),
    }
}

impl View for Error {
    type V = ErrorView;

    open spec fn view(&self) -> ErrorView {
        error_view(*self)
    }
}

impl View for ArrayErrors {
    type V = ArrayErrorsView;

    open spec fn view(&self) -> ArrayErrorsView {
        array_errors_view(*self)
    }
}

impl View for MapErrors {
    type V = Seq<(Seq<char>, Seq<ErrorView>)>;

    open spec fn view(&self) -> Seq<(Seq<char>, Seq<ErrorView>)> {
        entries_view(self.entries)
    }
}

impl View for ObjectErrors {
    type V = ObjectErrorsView;

    open spec fn view(&self) -> ObjectErrorsView {
        object_errors_view(*self)
    }
}

impl View for Errors {
    type V = ErrorsView;

    open spec fn view(&self) -> ErrorsView {
        errors_view(*self)
    }
}

} // verus!
