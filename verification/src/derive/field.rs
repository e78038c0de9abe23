use super::error::{error_views, Error, ErrorView, Errors};
use super::meta::{Lit, Meta, NestedMeta};
use super::validate::{attribute_declared, extract_attribute_validator, placed};
use crate::text::str_equal;
use crate::validation::PatternCache;
use crate::validator::{
    declared_view, lemma_nothing_declared, lemma_with_declared, nothing_declared, with_declared,
    DeclaredView, FieldValidators, Shape,
};
use vstd::prelude::*;

verus! {

/// One attribute of a field: the name of the attribute and what reading it gave, the
/// declaration that is written in it or the text of the fault that kept it from being read.
#[derive(Debug)]
pub struct Attribute {
    pub path: String,
    pub meta: Result<Meta, String>,
}

/// A field as it is declared: its name, the shape of its type, and its attributes.
#[derive(Debug)]
pub struct FieldDeclaration {
    pub name: String,
    pub shape: Shape,
    pub attrs: Vec<Attribute>,
}

/// A fault of a declaration together with its place: the position of the field among the
/// fields, and the position of the attribute among the attributes of the field.
#[derive(Debug)]
pub struct Located {
    pub field: usize,
    pub attribute: usize,
    pub error: Error,
}

/// A located fault as contracts see it.
pub struct LocatedView {
    pub field: nat,
    pub attribute: nat,
    pub error: ErrorView,
}

impl View for Located {
    type V = LocatedView;

    open spec fn view(&self) -> LocatedView {
        LocatedView {
            field: self.field as nat,
            attribute: self.attribute as nat,
            error: self.error@,
        }
    }
}

/// The located faults of a list, as contracts see them.
pub open spec fn located_views(faults: Seq<Located>) -> Seq<LocatedView> {
    faults.map_values(|fault: Located| fault@)
}

/// Faults with the place that they were found at.
pub open spec fn located(errors: Seq<ErrorView>, field: nat, attribute: nat) -> Seq<LocatedView> {
    errors.map_values(|error: ErrorView| LocatedView { field, attribute, error })
}

/// What the first `n` attributes of the field at position `field` declare: the checks of the
/// attributes named `validate`, each at the level that the shape of the field asks for, and the
/// faults of those that declare none, each with its place. Attributes of another name are passed
/// over.
pub open spec fn field_declared(
    attrs: Seq<Attribute>,
    shape: Shape,
    functions: Seq<&str>,
    patterns: Seq<Seq<char>>,
    field: nat,
    n: nat,
) -> (DeclaredView, Seq<LocatedView>)
    decreases n,
{
    if n == 0 || n > attrs.len() {
        (nothing_declared(shape), Seq::empty())
    } else {
        let before = field_declared(attrs, shape, functions, patterns, field, (n - 1) as nat);
        if attrs[n - 1].path@ != "validate"@ {
            before
        } else {
            match attribute_declared(attrs[n - 1].meta, functions, patterns) {
                Ok(check) => (with_declared(before.0, placed(check, shape)), before.1),
                Err(errors) => (before.0, before.1 + located(errors, field, (n - 1) as nat)),
            }
        }
    }
}

/// Adds faults to a list, each with the place that they were found at.
fn locate(faults: &mut Vec<Located>, errors: Errors, field: usize, attribute: usize)
    ensures
        located_views(final(faults)@) == located_views(old(faults)@) + located(
            error_views(errors@),
            field as nat,
            attribute as nat,
        ),
{
    let ghost start = located_views(faults@);
    let ghost all = error_views(errors@);
    let ghost given = errors@;
    proof {
        assert(located_views(faults@) =~= start + located(
            all.take(0),
            field as nat,
            attribute as nat,
        ));
    }
    for error in it: errors
        invariant
            it.seq() == given,
            all == error_views(given),
            located_views(faults@) == start + located(
                all.take(it.index()),
                field as nat,
                attribute as nat,
            ),
    {
        let ghost i = it.index();
        let ghost before = faults@;
        faults.push(Located { field, attribute, error });
        proof {
            assert(all[i] == error@);
            assert(located_views(faults@) =~= located_views(before).push(
                LocatedView { field: field as nat, attribute: attribute as nat, error: error@ },
            ));
            assert(located_views(faults@) =~= start + located(
                all.take(i + 1),
                field as nat,
                attribute as nat,
            ));
        }
    }
    proof {
        assert(all.take(all.len() as int) =~= all);
    }
}

/// The checks that the attributes of the field at position `index` declare, and the faults of
/// its declarations, each with its place.
pub fn field_validators(
    field: &FieldDeclaration,
    index: usize,
    functions: &[&str],
    patterns: &PatternCache,
) -> (found: (FieldValidators, Vec<Located>))
    ensures
        declared_view(found.0@) == field_declared(
            field.attrs@,
            field.shape,
            functions@,
            patterns.sources(),
            index as nat,
            field.attrs@.len(),
        ).0,
        located_views(found.1@) == field_declared(
            field.attrs@,
            field.shape,
            functions@,
            patterns.sources(),
            index as nat,
            field.attrs@.len(),
        ).1,
{
    let mut field_validators = FieldValidators::new(field.shape.duplicate());
    let mut faults: Vec<Located> = Vec::new();
    let mut i: usize = 0;
    proof {
        assert(located_views(faults@) =~= Seq::<LocatedView>::empty());
        lemma_nothing_declared(field.shape);
    }
    while i < field.attrs.len()
        invariant
            i <= field.attrs@.len(),
            declared_view(field_validators@) == field_declared(
                field.attrs@,
                field.shape,
                functions@,
                patterns.sources(),
                index as nat,
                i as nat,
            ).0,
            located_views(faults@) == field_declared(
                field.attrs@,
                field.shape,
                functions@,
                patterns.sources(),
                index as nat,
                i as nat,
            ).1,
        decreases field.attrs@.len() - i,
    {
        let attribute = &field.attrs[i];
        if str_equal(attribute.path.as_str(), "validate") {
            match extract_attribute_validator(&field.shape, &attribute.meta, functions, patterns) {
                Ok(validator) => {
                    proof {
                        lemma_with_declared(field_validators@, validator);
                    }
                    field_validators.push(validator);
                },
                Err(errors) => {
                    locate(&mut faults, errors, index, i);
                },
            }
        }
        i = i + 1;
    }
    (field_validators, faults)
}

/// The faults of the declarations of the first `n` fields, in their order, each with its place.
pub open spec fn fields_faults(
    fields: Seq<FieldDeclaration>,
    functions: Seq<&str>,
    patterns: Seq<Seq<char>>,
    n: nat,
) -> Seq<LocatedView>
    decreases n,
{
    if n == 0 || n > fields.len() {
        Seq::empty()
    } else {
        fields_faults(fields, functions, patterns, (n - 1) as nat) + field_declared(
            fields[n - 1].attrs@,
            fields[n - 1].shape,
            functions,
            patterns,
            (n - 1) as nat,
            fields[n - 1].attrs@.len(),
        ).1
    }
}

/// The checks of every field of a struct, in the order of the fields, or all faults of all
/// declarations where there are any, each with the place of the attribute that it was found in.
pub fn collect_validators(
    fields: &Vec<FieldDeclaration>,
    functions: &[&str],
    patterns: &PatternCache,
) -> (found: Result<Vec<FieldValidators>, Vec<Located>>)
    ensures
        match found {
            Ok(all) => fields_faults(
                fields@,
                functions@,
                patterns.sources(),
                fields@.len(),
            ).len() == 0 && all@.len() == fields@.len() && forall|i: int|
                0 <= i < all@.len() ==> declared_view((#[trigger] all@[i])@) == field_declared(
                    fields@[i].attrs@,
                    fields@[i].shape,
                    functions@,
                    patterns.sources(),
                    i as nat,
                    fields@[i].attrs@.len(),
                ).0,
            Err(faults) => faults@.len() > 0 && located_views(faults@) == fields_faults(
                fields@,
                functions@,
                patterns.sources(),
                fields@.len(),
            ),
        },
{
    let mut struct_validators: Vec<FieldValidators> = Vec::new();
    let mut faults: Vec<Located> = Vec::new();
    let mut i: usize = 0;
    proof {
        assert(located_views(faults@) =~= Seq::<LocatedView>::empty());
    }
    while i < fields.len()
        invariant
            i <= fields@.len(),
            struct_validators@.len() == i,
            located_views(faults@) == fields_faults(
                fields@,
                functions@,
                patterns.sources(),
                i as nat,
            ),
            forall|k: int|
                0 <= k < i ==> declared_view((#[trigger] struct_validators@[k])@) == field_declared(
                    fields@[k].attrs@,
                    fields@[k].shape,
                    functions@,
                    patterns.sources(),
                    k as nat,
                    fields@[k].attrs@.len(),
                ).0,
        decreases fields@.len() - i,
    {
        let (field_validators, found) = field_validators(&fields[i], i, functions, patterns);
        let mut found = found;
        let ghost first = faults@;
        let ghost second = found@;
        faults.append(&mut found);
        proof {
            assert(located_views(faults@) =~= located_views(first) + located_views(second));
        }
        struct_validators.push(field_validators);
        i = i + 1;
    }
    if faults.len() == 0 {
        Ok(struct_validators)
    } else {
        Err(faults)
    }
}

/// What a search for the declared name of a field finds.
pub enum Renamed {
    /// `rename = "name"` was found.
    Found(Seq<char>),
    /// No `rename` with a text was found on the way of the search.
    Absent,
    /// The search met a literal where a declaration has to stand.
    Literal,
}

/// The search for `rename = "name"` among the items from `from` on: bare names are passed over,
/// as is a name with a value that is no renaming; the first list decides the search by what is
/// found inside it.
pub open spec fn renamed(items: Vec<NestedMeta>, from: nat) -> Renamed
    decreases items, items@.len() - from,
{
    if from >= items@.len() {
        Renamed::Absent
    } else {
        match items@[from as int] {
            NestedMeta::Meta(Meta::Path(_)) => renamed(items, from + 1),
            NestedMeta::Meta(Meta::NameValue(name_value)) => {
                if name_value.path@ == "rename"@ && name_value.lit is Str {
                    Renamed::Found(name_value.lit->Str_0@)
                } else {
                    renamed(items, from + 1)
                }
            },
            NestedMeta::Meta(Meta::List(list)) => renamed(list.nested, 0),
            NestedMeta::Lit(_) => Renamed::Literal,
        }
    }
}

/// The name that a field is declared to have in place of its own, if one is declared.
pub fn find_original_field_name(meta_items: &Vec<NestedMeta>) -> (found: Option<&str>)
    requires
        !(renamed(*meta_items, 0) is Literal),
    ensures
        match renamed(*meta_items, 0) {
            Renamed::Found(name) => found matches Some(text) && text@ == name,
            _ => found is None,
        },
    decreases meta_items,
{
    let mut i: usize = 0;
    while i < meta_items.len()
        invariant
            i <= meta_items@.len(),
            !(renamed(*meta_items, 0) is Literal),
            renamed(*meta_items, 0) == renamed(*meta_items, i as nat),
        decreases meta_items@.len() - i,
    {
        match &meta_items[i] {
            NestedMeta::Meta(item) => match item {
                Meta::Path(_) => {},
                Meta::NameValue(name_value) => {
                    if str_equal(name_value.path.as_str(), "rename") {
                        if let Lit::Str(lit_str) = &name_value.lit {
                            return Some(lit_str.as_str());
                        }
                    }
                },
                Meta::List(list) => {
                    proof {
                        assert(decreases_to!(*meta_items => meta_items@[i as int]));
                    }
                    return find_original_field_name(&list.nested);
                },
            },
            NestedMeta::Lit(_) => {
                vstd::pervasive::unreached::<()>();
            },
        }
        i = i + 1;
    }
    None
}

/// Whether the search for the declared name of a field meets a literal where a declaration has
/// to stand.
pub fn reaches_literal(meta_items: &Vec<NestedMeta>) -> (reaches: bool)
    ensures
        reaches == (renamed(*meta_items, 0) is Literal),
    decreases meta_items,
{
    let mut i: usize = 0;
    while i < meta_items.len()
        invariant
            i <= meta_items@.len(),
            renamed(*meta_items, 0) == renamed(*meta_items, i as nat),
        decreases meta_items@.len() - i,
    {
        match &meta_items[i] {
            NestedMeta::Meta(item) => match item {
                Meta::Path(_) => {},
                Meta::NameValue(name_value) => {
                    if str_equal(name_value.path.as_str(), "rename") {
                        if let Lit::Str(_) = &name_value.lit {
                            return false;
                        }
                    }
                },
                Meta::List(list) => {
                    proof {
                        assert(decreases_to!(*meta_items => meta_items@[i as int]));
                    }
                    return reaches_literal(&list.nested);
                },
            },
            NestedMeta::Lit(_) => {
                return true;
            },
        }
        i = i + 1;
    }
    false
}

/// What the search for the declared name of a field gave.
#[derive(Debug, Clone, Copy)]
pub enum Rename<'a> {
    /// `rename = "name"` was found.
    Found(&'a str),
    /// No `rename` with a text was found on the way of the search.
    Absent,
    /// The search met a literal where a declaration has to stand.
    Literal,
}

impl<'a> View for Rename<'a> {
    type V = Renamed;

    open spec fn view(&self) -> Renamed {
        match self {
            Rename::Found(name) => Renamed::Found(name@),
            Rename::Absent => Renamed::Absent,
            Rename::Literal => Renamed::Literal,
        }
    }
}

/// What the search for the declared name of a field finds in one attribute: what it finds among
/// the items of `#[serde(..)]`, and nothing in any other attribute.
pub open spec fn attribute_renamed(attribute: Attribute) -> Renamed {
    if attribute.path@ == "serde"@ {
        match attribute.meta {
            Ok(Meta::List(list)) => renamed(list.nested, 0),
            _ => Renamed::Absent,
        }
    } else {
        Renamed::Absent
    }
}

/// What the search for the declared name of a field finds in its attributes from `from` on:
/// what the first attribute gives in which the search finds anything.
pub open spec fn field_renamed(attrs: Seq<Attribute>, from: nat) -> Renamed
    decreases attrs.len() - from,
{
    if from >= attrs.len() {
        Renamed::Absent
    } else {
        match attribute_renamed(attrs[from as int]) {
            Renamed::Absent => field_renamed(attrs, from + 1),
            found => found,
        }
    }
}

/// Searches the attributes of a field for the name that the field is declared to have in place
/// of its own.
pub fn find_rename<'a>(attrs: &'a Vec<Attribute>) -> (found: Rename<'a>)
    ensures
        found@ == field_renamed(attrs@, 0),
{
    let mut i: usize = 0;
    while i < attrs.len()
        invariant
            i <= attrs@.len(),
            field_renamed(attrs@, 0) == field_renamed(attrs@, i as nat),
        decreases attrs@.len() - i,
    {
        let attribute = &attrs[i];
        if str_equal(attribute.path.as_str(), "serde") {
            match &attribute.meta {
                Ok(Meta::List(list)) => {
                    if reaches_literal(&list.nested) {
                        return Rename::Literal;
                    }
                    match find_original_field_name(&list.nested) {
                        Some(name) => {
                            return Rename::Found(name);
                        },
                        None => {},
                    }
                },
                _ => {},
            }
        }
        i = i + 1;
    }
    Rename::Absent
}

} // verus!
