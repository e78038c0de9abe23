use crate::error::Number;
use vstd::prelude::*;

verus! {

/// A literal of a declaration.
#[derive(Debug, Clone)]
pub enum Lit {
    Str(String),
    Int(Number),
    Bool(bool),
    /// A literal of another kind: a float, a character, a byte string.
    Other,
}

/// A declaration of the form `name(item, ..)`.
#[derive(Debug)]
pub struct MetaList {
    pub path: String,
    pub nested: Vec<NestedMeta>,
}

/// A declaration of the form `name = literal`.
#[derive(Debug, Clone)]
pub struct MetaNameValue {
    pub path: String,
    pub lit: Lit,
}

/// One declaration: a bare name, a list, or a name with a value.
#[derive(Debug)]
pub enum Meta {
    Path(String),
    List(MetaList),
    NameValue(MetaNameValue),
}

/// An item of a list: a declaration or a literal.
#[derive(Debug)]
pub enum NestedMeta {
    Meta(Meta),
    Lit(Lit),
}

} // verus!
