use super::field::{Attribute, FieldDeclaration};
use crate::error::number::{decimal_nat, push_decimal};
use crate::text::str_equal;
use crate::validator::Shape;
use vstd::prelude::*;
use vstd::string::StringExecFns;

verus! {

/// The type of a field as it is written, as far as its name in messages goes.
#[derive(Debug)]
pub enum FieldType {
    /// A path, such as `Vec<u8>`, with its text.
    Path(String),
    /// A reference, with the text of the type that it refers to.
    Reference { lifetime: bool, elem: String },
    /// A type of another form, which has no name in messages.
    Other,
}

/// The name of a type in messages: a path as it is written, a reference with a lifetime as `&`
/// and the type that it refers to, and a reference without one as that type alone.
pub open spec fn field_type_text(field_type: FieldType) -> Seq<char> {
    match field_type {
        FieldType::Path(path) => path@,
        FieldType::Reference { lifetime, elem } => if lifetime {
            "&"@ + elem@
        } else {
            elem@
        },
        FieldType::Other => Seq::empty(),
    }
}

/// The name of the type of a field in messages. A type that is neither a path nor a reference
/// has none.
pub fn get_field_type(field_type: &FieldType) -> (text: String)
    requires
        !(field_type is Other),
    ensures
        text@ == field_type_text(*field_type),
{
    match field_type {
        FieldType::Path(path) => path.as_str().to_owned(),
        FieldType::Reference { lifetime, elem } => {
            if *lifetime {
                let mut text: String = String::from_str("&");
                text.append(elem.as_str());
                text
            } else {
                elem.as_str().to_owned()
            }
        },
        FieldType::Other => String::new(),
    }
}

/// A field of a struct whose fields have no names: its position among the fields, the name that
/// stands for it in generated code, and what it declares. Its errors are reported under its
/// position.
#[derive(Debug)]
pub struct UnnamedField {
    pub index: usize,
    pub ident: String,
    pub field: FieldDeclaration,
}

impl UnnamedField {
    /// The field at the position `index`, of the given shape and with the given attributes. It
    /// is named `_` and the position, and its errors are reported under the position.
    pub fn new(index: usize, shape: Shape, attrs: Vec<Attribute>) -> (made: Self)
        ensures
            made.index == index,
            made.ident@ == "_"@ + decimal_nat(index as nat),
            made.field.name@ == decimal_nat(index as nat),
            made.field.shape == shape,
            made.field.attrs == attrs,
    {
        let mut ident: String = String::from_str("_");
        push_decimal(&mut ident, index as u128);
        let mut name: String = String::new();
        push_decimal(&mut name, index as u128);
        proof {
            assert(name@ =~= decimal_nat(index as nat));
        }
        UnnamedField { index, ident, field: FieldDeclaration { name, shape, attrs } }
    }
}

/// The type of a field as it is written, as far as the shape of its values goes.
#[derive(Debug)]
pub enum TypeForm {
    /// `[T; N]`, with the form of `T`.
    Array(Box<TypeForm>),
    /// `[T]`, with the form of `T`.
    Slice(Box<TypeForm>),
    /// `&T`, with the form of `T`.
    Reference(Box<TypeForm>),
    /// A path: the name of its last segment, and the form of the first type among the arguments
    /// of that segment, if it has one.
    Path { name: String, argument: Option<Box<TypeForm>> },
    /// A type of another form.
    Other,
}

/// The shape of the values of a type: `Option<T>` is an optional, `Vec<T>`, `[T]` and `[T; N]`
/// are sequences, a reference has the shape of what it refers to, and every other type is
/// taken as a value of its own.
pub open spec fn shape_of_form(form: TypeForm) -> Shape
    decreases form,
{
    match form {
        TypeForm::Array(elem) => Shape::Sequence(Box::new(shape_of_form(*elem))),
        TypeForm::Slice(elem) => Shape::Sequence(Box::new(shape_of_form(*elem))),
        TypeForm::Reference(elem) => shape_of_form(*elem),
        TypeForm::Path { name, argument } => match argument {
            Some(inner) => if name@ == "Option"@ {
                Shape::Optional(Box::new(shape_of_form(*inner)))
            } else if name@ == "Vec"@ {
                Shape::Sequence(Box::new(shape_of_form(*inner)))
            } else {
                Shape::Scalar
            },
            None => Shape::Scalar,
        },
        TypeForm::Other => Shape::Scalar,
    }
}

/// The shape of the values of a type.
pub fn shape_of(form: &TypeForm) -> (shape: Shape)
    ensures
        shape == shape_of_form(*form),
    decreases form,
{
    match form {
        TypeForm::Array(elem) => Shape::Sequence(Box::new(shape_of(elem))),
        TypeForm::Slice(elem) => Shape::Sequence(Box::new(shape_of(elem))),
        TypeForm::Reference(elem) => shape_of(elem),
        TypeForm::Path { name, argument } => match argument {
            Some(inner) => {
                if str_equal(name.as_str(), "Option") {
                    Shape::Optional(Box::new(shape_of(inner)))
                } else if str_equal(name.as_str(), "Vec") {
                    Shape::Sequence(Box::new(shape_of(inner)))
                } else {
                    Shape::Scalar
                }
            },
            None => Shape::Scalar,
        },
        TypeForm::Other => Shape::Scalar,
    }
}

} // verus!
