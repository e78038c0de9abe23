use super::common::MetaNameValueValidation;
use super::error::{fault_of, Error, ErrorKind};
use super::field::{located_views, Attribute, FieldDeclaration, Located, LocatedView};
use super::meta::{Lit, Meta, NestedMeta};
use super::validate::{
    declared, extract_fn_name, function_declared, function_name, index_of, item_declared,
};
use crate::text::str_equal;
use crate::validation::PatternCache;
use crate::validator::{ConstraintView, MessageView};
use vstd::prelude::*;

verus! {

/// The texts of a list of names.
pub open spec fn name_views(names: Seq<&str>) -> Seq<Seq<char>> {
    names.map_values(|name: &str| name@)
}

/// The names with one more as their last, unless it is among them already.
pub open spec fn with_name(names: Seq<Seq<char>>, name: Seq<char>) -> Seq<Seq<char>> {
    if names.contains(name) {
        names
    } else {
        names.push(name)
    }
}

/// The function that an item of a list names, if it names one: a list names a function by
/// a bare name or by the name of a list.
pub open spec fn named_function(item: NestedMeta) -> Option<Seq<char>> {
    match function_name(item) {
        Ok(name) => Some(name),
        Err(_) => None,
    }
}

/// The names with the functions that the first `n` items of a list name, each added where it
/// is first met.
pub open spec fn with_list_functions(names: Seq<Seq<char>>, items: Seq<NestedMeta>, n: nat) -> Seq<
    Seq<char>,
>
    decreases n,
{
    if n == 0 || n > items.len() {
        names
    } else {
        let before = with_list_functions(names, items, (n - 1) as nat);
        match named_function(items[n - 1]) {
            Some(name) => with_name(before, name),
            None => before,
        }
    }
}

/// The items of the list that an item is, and none where it is no list.
pub open spec fn listed_items(item: NestedMeta) -> Seq<NestedMeta> {
    match item {
        NestedMeta::Meta(Meta::List(list)) => list.nested@,
        _ => Seq::empty(),
    }
}

/// The items of an attribute that is a `#[validate(..)]` that could be read, and none of any
/// other attribute.
pub open spec fn validate_items(attribute: Attribute) -> Seq<NestedMeta> {
    if attribute.path@ == "validate"@ {
        match attribute.meta {
            Ok(Meta::List(list)) => list.nested@,
            _ => Seq::empty(),
        }
    } else {
        Seq::empty()
    }
}

/// The names with the functions that the lists among the first `n` items of `validate(..)`
/// name: those of `custom(..)`, `format(..)` and `message_fn(..)`.
pub open spec fn with_listed_functions(
    names: Seq<Seq<char>>,
    items: Seq<NestedMeta>,
    n: nat,
) -> Seq<Seq<char>>
    decreases n,
{
    if n == 0 || n > items.len() {
        names
    } else {
        with_list_functions(
            with_listed_functions(names, items, (n - 1) as nat),
            listed_items(items[n - 1]),
            listed_items(items[n - 1]).len(),
        )
    }
}

/// The names with the functions that one attribute names.
pub open spec fn with_attribute_names(names: Seq<Seq<char>>, attribute: Attribute) -> Seq<
    Seq<char>,
> {
    with_listed_functions(names, validate_items(attribute), validate_items(attribute).len())
}

/// The names with the functions that the first `n` attributes name.
pub open spec fn with_attributes_names(names: Seq<Seq<char>>, attrs: Seq<Attribute>, n: nat) -> Seq<
    Seq<char>,
>
    decreases n,
{
    if n == 0 || n > attrs.len() {
        names
    } else {
        with_attribute_names(with_attributes_names(names, attrs, (n - 1) as nat), attrs[n - 1])
    }
}

/// The functions that the first `n` fields name, each once, in the order in which they are
/// first named.
pub open spec fn function_names(fields: Seq<FieldDeclaration>, n: nat) -> Seq<Seq<char>>
    decreases n,
{
    if n == 0 || n > fields.len() {
        Seq::empty()
    } else {
        with_attributes_names(
            function_names(fields, (n - 1) as nat),
            fields[n - 1].attrs@,
            fields[n - 1].attrs@.len(),
        )
    }
}

/// Whether no name stands twice among the names.
pub open spec fn each_once(names: Seq<Seq<char>>) -> bool {
    forall|i: int, j: int| 0 <= i < j < names.len() ==> names[i] != names[j]
}

/// Whether a name is among the names.
pub fn has_name(names: &Vec<&str>, name: &str) -> (found: bool)
    ensures
        found == name_views(names@).contains(name@),
{
    let mut i: usize = 0;
    while i < names.len()
        invariant
            i <= names@.len(),
            forall|k: int| 0 <= k < i ==> name_views(names@)[k] != name@,
        decreases names@.len() - i,
    {
        if str_equal(names[i], name) {
            proof {
                assert(name_views(names@)[i as int] == name@);
            }
            return true;
        }
        i = i + 1;
    }
    false
}

/// Adds a name as the last of the names, unless it is among them already.
pub fn add_name<'a>(names: &mut Vec<&'a str>, name: &'a str)
    ensures
        name_views(final(names)@) == with_name(name_views(old(names)@), name@),
        each_once(name_views(old(names)@)) ==> each_once(name_views(final(names)@)),
{
    if !has_name(names, name) {
        names.push(name);
        proof {
            assert(name_views(names@) =~= name_views(old(names)@).push(name@));
            if each_once(name_views(old(names)@)) {
                assert forall|i: int, j: int| 0 <= i < j < names@.len() implies name_views(
                    names@,
                )[i] != name_views(names@)[j] by {
                    assert(name_views(names@)[i] == name_views(old(names)@)[i]);
                    if j < old(names)@.len() {
                        assert(name_views(names@)[j] == name_views(old(names)@)[j]);
                    } else {
                        assert(name_views(old(names)@).contains(name_views(old(names)@)[i]));
                    }
                }
            }
        }
    }
}

/// Adds the functions that the items of a list name.
fn add_list_functions<'a>(names: &mut Vec<&'a str>, items: &'a Vec<NestedMeta>)
    ensures
        name_views(final(names)@) == with_list_functions(
            name_views(old(names)@),
            items@,
            items@.len(),
        ),
        each_once(name_views(old(names)@)) ==> each_once(name_views(final(names)@)),
{
    let mut i: usize = 0;
    while i < items.len()
        invariant
            i <= items@.len(),
            name_views(names@) == with_list_functions(name_views(old(names)@), items@, i as nat),
            each_once(name_views(old(names)@)) ==> each_once(name_views(names@)),
        decreases items@.len() - i,
    {
        match extract_fn_name(&items[i]) {
            Ok(name) => {
                add_name(names, name);
            },
            Err(_) => {},
        }
        i = i + 1;
    }
}

/// Adds the functions that the lists among the items of `validate(..)` name.
fn add_listed_functions<'a>(names: &mut Vec<&'a str>, items: &'a Vec<NestedMeta>)
    ensures
        name_views(final(names)@) == with_listed_functions(
            name_views(old(names)@),
            items@,
            items@.len(),
        ),
        each_once(name_views(old(names)@)) ==> each_once(name_views(final(names)@)),
{
    let mut i: usize = 0;
    while i < items.len()
        invariant
            i <= items@.len(),
            name_views(names@) == with_listed_functions(name_views(old(names)@), items@, i as nat),
            each_once(name_views(old(names)@)) ==> each_once(name_views(names@)),
        decreases items@.len() - i,
    {
        match &items[i] {
            NestedMeta::Meta(Meta::List(list)) => {
                add_list_functions(names, &list.nested);
            },
            _ => {},
        }
        i = i + 1;
    }
}

/// Adds the functions that the attributes of one field name.
fn add_attributes_names<'a>(names: &mut Vec<&'a str>, attrs: &'a Vec<Attribute>)
    ensures
        name_views(final(names)@) == with_attributes_names(
            name_views(old(names)@),
            attrs@,
            attrs@.len(),
        ),
        each_once(name_views(old(names)@)) ==> each_once(name_views(final(names)@)),
{
    let mut i: usize = 0;
    while i < attrs.len()
        invariant
            i <= attrs@.len(),
            name_views(names@) == with_attributes_names(name_views(old(names)@), attrs@, i as nat),
            each_once(name_views(old(names)@)) ==> each_once(name_views(names@)),
        decreases attrs@.len() - i,
    {
        let attribute = &attrs[i];
        if str_equal(attribute.path.as_str(), "validate") {
            match &attribute.meta {
                Ok(Meta::List(list)) => {
                    add_listed_functions(names, &list.nested);
                },
                _ => {},
            }
        }
        i = i + 1;
    }
}

/// The functions that the declarations of a struct name, each once, in the order in which they
/// are first named. The position of a name in this table is the number that a check names the
/// function by.
pub fn declared_functions<'a>(fields: &'a Vec<FieldDeclaration>) -> (names: Vec<&'a str>)
    ensures
        name_views(names@) == function_names(fields@, fields@.len()),
        each_once(name_views(names@)),
{
    let mut names: Vec<&'a str> = Vec::new();
    let mut i: usize = 0;
    proof {
        assert(name_views(names@) =~= Seq::<Seq<char>>::empty());
    }
    while i < fields.len()
        invariant
            i <= fields@.len(),
            name_views(names@) == function_names(fields@, i as nat),
            each_once(name_views(names@)),
        decreases fields@.len() - i,
    {
        add_attributes_names(&mut names, &fields[i].attrs);
        i = i + 1;
    }
    names
}

/// A name that is among the names stays among them when a name is added, and the added name is
/// among them afterwards.
pub proof fn lemma_with_name(names: Seq<Seq<char>>, name: Seq<char>, other: Seq<char>)
    ensures
        with_name(names, name).contains(name),
        names.contains(other) ==> with_name(names, name).contains(other),
{
    let after = with_name(names, name);
    if !names.contains(name) {
        assert(after[names.len() as int] == name);
    }
    if names.contains(other) {
        let at = choose|at: int| 0 <= at < names.len() && names[at] == other;
        assert(after[at] == other);
    }
}

/// Whether an attribute names a function: it is a `#[validate(..)]` that could be read, and
/// an item of a list among its items names the function.
pub open spec fn names_function(attribute: Attribute, function: Seq<char>) -> bool {
    exists|k: int, m: int|
        0 <= k < validate_items(attribute).len() && 0 <= m < listed_items(
            validate_items(attribute)[k],
        ).len() && named_function(#[trigger] listed_items(validate_items(attribute)[k])[m]) == Some(
            function,
        )
}

/// Adding the functions that the items of a list name keeps every name, and adds every
/// function that one of the items that were read names.
pub proof fn lemma_with_list_functions(
    names: Seq<Seq<char>>,
    items: Seq<NestedMeta>,
    n: nat,
    other: Seq<char>,
)
    requires
        n <= items.len(),
    ensures
        names.contains(other) ==> with_list_functions(names, items, n).contains(other),
        forall|m: int|
            0 <= m < n && named_function(#[trigger] items[m]) == Some(other)
                ==> with_list_functions(names, items, n).contains(other),
    decreases n,
{
    if n > 0 {
        let before = with_list_functions(names, items, (n - 1) as nat);
        lemma_with_list_functions(names, items, (n - 1) as nat, other);
        match named_function(items[n - 1]) {
            Some(name) => {
                lemma_with_name(before, name, other);
            },
            None => {},
        }
    }
}

/// Adding the functions that the lists of `validate(..)` name keeps every name, and adds every
/// function that an item of a list among the items that were read names.
pub proof fn lemma_with_listed_functions(
    names: Seq<Seq<char>>,
    items: Seq<NestedMeta>,
    n: nat,
    other: Seq<char>,
)
    requires
        n <= items.len(),
    ensures
        names.contains(other) ==> with_listed_functions(names, items, n).contains(other),
        forall|k: int, m: int|
            0 <= k < n && 0 <= m < listed_items(items[k]).len() && named_function(
                #[trigger] listed_items(items[k])[m],
            ) == Some(other) ==> with_listed_functions(names, items, n).contains(other),
    decreases n,
{
    if n > 0 {
        let before = with_listed_functions(names, items, (n - 1) as nat);
        let listed = listed_items(items[n - 1]);
        lemma_with_listed_functions(names, items, (n - 1) as nat, other);
        lemma_with_list_functions(before, listed, listed.len(), other);
    }
}

/// Adding the names of the attributes of a field keeps every name, and adds every function that
/// one of the attributes that were read names.
pub proof fn lemma_with_attributes_names(
    names: Seq<Seq<char>>,
    attrs: Seq<Attribute>,
    n: nat,
    other: Seq<char>,
)
    requires
        n <= attrs.len(),
    ensures
        names.contains(other) ==> with_attributes_names(names, attrs, n).contains(other),
        forall|j: int|
            0 <= j < n && names_function(#[trigger] attrs[j], other) ==> with_attributes_names(
                names,
                attrs,
                n,
            ).contains(other),
    decreases n,
{
    if n > 0 {
        let before = with_attributes_names(names, attrs, (n - 1) as nat);
        lemma_with_attributes_names(names, attrs, (n - 1) as nat, other);
        let items = validate_items(attrs[n - 1]);
        lemma_with_listed_functions(before, items, items.len(), other);
    }
}

/// Every function that a declaration names is in the table of the functions, so a check that
/// names it finds its number there.
pub proof fn lemma_named_functions_are_listed(
    fields: Seq<FieldDeclaration>,
    n: nat,
    i: int,
    j: int,
    function: Seq<char>,
)
    requires
        n <= fields.len(),
        0 <= i < n,
        0 <= j < fields[i].attrs@.len(),
        names_function(fields[i].attrs@[j], function),
    ensures
        function_names(fields, n).contains(function),
    decreases n,
{
    let before = function_names(fields, (n - 1) as nat);
    let attrs = fields[n - 1].attrs@;
    lemma_with_attributes_names(before, attrs, attrs.len(), function);
    if i < n - 1 {
        lemma_named_functions_are_listed(fields, (n - 1) as nat, i, j, function);
    }
}

/// A name that stands at or after `start` is found by a search from `start`.
proof fn lemma_index_of_finds(names: Seq<&str>, name: Seq<char>, start: int, at: int)
    requires
        0 <= start <= at < names.len(),
        names[at]@ == name,
    ensures
        index_of(names, name, start) is Some,
    decreases at - start,
{
    if names[start]@ != name {
        lemma_index_of_finds(names, name, start + 1, at);
    }
}

/// With the table that [`declared_functions`] makes of the declarations, every function that a
/// declaration names has a number.
pub proof fn lemma_named_function_has_number(
    fields: Seq<FieldDeclaration>,
    table: Seq<&str>,
    i: int,
    j: int,
    function: Seq<char>,
)
    requires
        name_views(table) == function_names(fields, fields.len()),
        0 <= i < fields.len(),
        0 <= j < fields[i].attrs@.len(),
        names_function(fields[i].attrs@[j], function),
    ensures
        index_of(table, function, 0) is Some,
{
    lemma_named_functions_are_listed(fields, fields.len(), i, j, function);
    let at = choose|at: int| 0 <= at < name_views(table).len() && name_views(table)[at] == function;
    lemma_index_of_finds(table, function, 0, at);
}

/// With the table that [`declared_functions`] makes of the declarations, no item of a list
/// inside a `#[validate(..)]` is refused because its function is not found.
pub proof fn lemma_declared_function_is_found(
    fields: Seq<FieldDeclaration>,
    table: Seq<&str>,
    i: int,
    j: int,
    k: int,
    m: int,
)
    requires
        name_views(table) == function_names(fields, fields.len()),
        0 <= i < fields.len(),
        0 <= j < fields[i].attrs@.len(),
        0 <= k < validate_items(fields[i].attrs@[j]).len(),
        0 <= m < listed_items(validate_items(fields[i].attrs@[j])[k]).len(),
        function_name(listed_items(validate_items(fields[i].attrs@[j])[k])[m]) is Ok,
    ensures
        function_declared(listed_items(validate_items(fields[i].attrs@[j])[k])[m], table) is Ok,
{
    let item = listed_items(validate_items(fields[i].attrs@[j])[k])[m];
    let function = function_name(item)->Ok_0;
    assert(named_function(item) == Some(function));
    lemma_named_function_has_number(fields, table, i, j, function);
}

/// One place where a pattern is declared: the position of the field among the fields, the
/// position of the attribute among the attributes of the field, and the source of the pattern.
#[derive(Debug, Clone, Copy)]
pub struct PatternUse<'a> {
    pub field: usize,
    pub attribute: usize,
    pub source: &'a str,
}

/// A place where a pattern is declared, as contracts see it.
pub struct PatternUseView {
    pub field: nat,
    pub attribute: nat,
    pub source: Seq<char>,
}

impl<'a> View for PatternUse<'a> {
    type V = PatternUseView;

    open spec fn view(&self) -> PatternUseView {
        PatternUseView {
            field: self.field as nat,
            attribute: self.attribute as nat,
            source: self.source@,
        }
    }
}

/// The places of a list, as contracts see them.
pub open spec fn use_views(uses: Seq<PatternUse>) -> Seq<PatternUseView> {
    uses.map_values(|place: PatternUse| place@)
}

/// The source of the pattern that an attribute declares: the text of `pattern = "text"` where
/// that is the first item of a `#[validate(..)]` that could be read.
pub open spec fn declared_pattern(attribute: Attribute) -> Option<Seq<char>> {
    let items = validate_items(attribute);
    if items.len() == 0 {
        None
    } else {
        match items[0] {
            NestedMeta::Meta(Meta::NameValue(name_value)) => match name_value.lit {
                Lit::Str(source) => if name_value.path@ == "pattern"@ {
                    Some(source@)
                } else {
                    None
                },
                _ => None,
            },
            _ => None,
        }
    }
}

/// The places where the first `n` attributes of the field at position `field` declare a
/// pattern, in their order.
pub open spec fn field_pattern_uses(attrs: Seq<Attribute>, field: nat, n: nat) -> Seq<
    PatternUseView,
>
    decreases n,
{
    if n == 0 || n > attrs.len() {
        Seq::empty()
    } else {
        let before = field_pattern_uses(attrs, field, (n - 1) as nat);
        match declared_pattern(attrs[n - 1]) {
            Some(source) => before.push(
                PatternUseView { field, attribute: (n - 1) as nat, source },
            ),
            None => before,
        }
    }
}

/// The places where the first `n` fields declare a pattern, in their order.
pub open spec fn pattern_uses(fields: Seq<FieldDeclaration>, n: nat) -> Seq<PatternUseView>
    decreases n,
{
    if n == 0 || n > fields.len() {
        Seq::empty()
    } else {
        pattern_uses(fields, (n - 1) as nat) + field_pattern_uses(
            fields[n - 1].attrs@,
            (n - 1) as nat,
            fields[n - 1].attrs@.len(),
        )
    }
}

/// The source of the pattern that an attribute declares.
pub fn pattern_of<'a>(attribute: &'a Attribute) -> (source: Option<&'a str>)
    ensures
        match declared_pattern(*attribute) {
            Some(expected) => source matches Some(found) && found@ == expected,
            None => source is None,
        },
{
    if !str_equal(attribute.path.as_str(), "validate") {
        return None;
    }
    match &attribute.meta {
        Ok(Meta::List(list)) => {
            if list.nested.len() == 0 {
                return None;
            }
            match &list.nested[0] {
                NestedMeta::Meta(Meta::NameValue(name_value)) => match &name_value.lit {
                    Lit::Str(source) => {
                        if str_equal(name_value.path.as_str(), "pattern") {
                            Some(source.as_str())
                        } else {
                            None
                        }
                    },
                    _ => None,
                },
                _ => None,
            }
        },
        _ => None,
    }
}

/// Adds the places where the attributes of the field at position `field` declare a pattern.
fn add_pattern_uses<'a>(uses: &mut Vec<PatternUse<'a>>, attrs: &'a Vec<Attribute>, field: usize)
    ensures
        use_views(final(uses)@) == use_views(old(uses)@) + field_pattern_uses(
            attrs@,
            field as nat,
            attrs@.len(),
        ),
{
    let mut i: usize = 0;
    proof {
        assert(use_views(uses@) =~= use_views(old(uses)@) + field_pattern_uses(
            attrs@,
            field as nat,
            0,
        ));
    }
    while i < attrs.len()
        invariant
            i <= attrs@.len(),
            use_views(uses@) == use_views(old(uses)@) + field_pattern_uses(
                attrs@,
                field as nat,
                i as nat,
            ),
        decreases attrs@.len() - i,
    {
        match pattern_of(&attrs[i]) {
            Some(source) => {
                let ghost before = uses@;
                let place = PatternUse { field, attribute: i, source };
                uses.push(place);
                proof {
                    assert(use_views(uses@) =~= use_views(before).push(place@));
                    assert(use_views(uses@) =~= use_views(old(uses)@) + field_pattern_uses(
                        attrs@,
                        field as nat,
                        (i + 1) as nat,
                    ));
                }
            },
            None => {},
        }
        i = i + 1;
    }
}

/// The places where the declarations of a struct declare a pattern, in their order.
pub fn declared_patterns<'a>(fields: &'a Vec<FieldDeclaration>) -> (uses: Vec<PatternUse<'a>>)
    ensures
        use_views(uses@) == pattern_uses(fields@, fields@.len()),
{
    let mut uses: Vec<PatternUse<'a>> = Vec::new();
    let mut i: usize = 0;
    proof {
        assert(use_views(uses@) =~= Seq::<PatternUseView>::empty());
    }
    while i < fields.len()
        invariant
            i <= fields@.len(),
            use_views(uses@) == pattern_uses(fields@, i as nat),
        decreases fields@.len() - i,
    {
        add_pattern_uses(&mut uses, &fields[i].attrs, i);
        i = i + 1;
    }
    uses
}

/// The fault that is reported at a place whose pattern could not be compiled.
pub open spec fn refusal(place: PatternUseView) -> LocatedView {
    LocatedView {
        field: place.field,
        attribute: place.attribute,
        error: fault_of(ErrorKind::PatternNotCompiled, place.source),
    }
}

/// Whether one of the first `n` places declares the source.
pub open spec fn declares(uses: Seq<PatternUseView>, n: int, source: Seq<char>) -> bool {
    exists|k: int| 0 <= k < n && k < uses.len() && (#[trigger] uses[k]).source == source
}

/// Whether a fault is the refusal of one of the first `n` places.
pub open spec fn refuses(uses: Seq<PatternUseView>, n: int, fault: LocatedView) -> bool {
    exists|k: int| 0 <= k < n && k < uses.len() && refusal(#[trigger] uses[k]) == fault
}

/// Whether the first `n` places are all answered: the pattern of each is in the cache, or the
/// place is among the refusals.
pub open spec fn answered(
    uses: Seq<PatternUseView>,
    n: int,
    sources: Seq<Seq<char>>,
    refused: Seq<LocatedView>,
) -> bool {
    forall|k: int|
        0 <= k < n && k < uses.len() ==> sources.contains((#[trigger] uses[k]).source)
            || refused.contains(refusal(uses[k]))
}

/// Takes what the attempt to compile the pattern of a place gave: a place whose pattern was
/// not compiled is added to the refusals, with the fault that says so.
pub fn report_refusal(refused: &mut Vec<Located>, place: &PatternUse, compiled: bool)
    ensures
        located_views(final(refused)@) == if compiled {
            located_views(old(refused)@)
        } else {
            located_views(old(refused)@).push(refusal(place@))
        },
{
    if !compiled {
        let fault = Located {
            field: place.field,
            attribute: place.attribute,
            error: Error::pattern_not_compiled(place.source),
        };
        refused.push(fault);
        proof {
            assert(located_views(refused@) =~= located_views(old(refused)@).push(fault@));
        }
    }
}

/// Compiles the patterns of the places, each source once, in the order of the places.
///
/// Whether a source compiles is for the regex engine to say. Whatever it says, every place is
/// answered: its pattern is in the cache, or the place is reported with the fault that the
/// pattern could not be compiled. The cache holds no other pattern, and no other place is
/// reported.
pub fn compile_patterns(uses: &Vec<PatternUse>) -> (made: (PatternCache, Vec<Located>))
    ensures
        made.0.well_formed(),
        answered(use_views(uses@), uses@.len() as int, made.0.sources(), located_views(made.1@)),
        forall|j: int|
            0 <= j < made.0.sources().len() ==> declares(
                use_views(uses@),
                uses@.len() as int,
                #[trigger] made.0.sources()[j],
            ),
        forall|j: int|
            0 <= j < made.1@.len() ==> refuses(
                use_views(uses@),
                uses@.len() as int,
                #[trigger] located_views(made.1@)[j],
            ),
{
    let mut patterns = PatternCache::new();
    let mut refused: Vec<Located> = Vec::new();
    let mut i: usize = 0;
    let ghost places = use_views(uses@);
    while i < uses.len()
        invariant
            i <= uses@.len(),
            places == use_views(uses@),
            patterns.well_formed(),
            answered(places, i as int, patterns.sources(), located_views(refused@)),
            forall|j: int|
                0 <= j < patterns.sources().len() ==> declares(
                    places,
                    i as int,
                    #[trigger] patterns.sources()[j],
                ),
            forall|j: int|
                0 <= j < refused@.len() ==> refuses(
                    places,
                    i as int,
                    #[trigger] located_views(refused@)[j],
                ),
        decreases uses@.len() - i,
    {
        let place = uses[i];
        let ghost sources_before = patterns.sources();
        let ghost refused_before = located_views(refused@);
        assert(places[i as int] == place@);
        let compiled = patterns.get_or_compile(place.source);
        report_refusal(&mut refused, &place, compiled.is_ok());
        proof {
            let sources = patterns.sources();
            let faults = located_views(refused@);
            assert forall|s: Seq<char>| sources_before.contains(s) implies sources.contains(
                s,
            ) by {
                let at = choose|at: int| 0 <= at < sources_before.len() && sources_before[at] == s;
                assert(sources[at] == s);
            }
            assert forall|f: LocatedView| refused_before.contains(f) implies faults.contains(
                f,
            ) by {
                let at = choose|at: int| 0 <= at < refused_before.len() && refused_before[at] == f;
                assert(faults[at] == f);
            }
            assert(sources.contains(place@.source) || faults.contains(refusal(place@))) by {
                if sources.len() > sources_before.len() || sources_before.contains(place@.source) {
                } else {
                    assert(faults[faults.len() - 1] == refusal(place@));
                }
            }
            assert forall|j: int| 0 <= j < sources.len() implies declares(
                places,
                i + 1,
                #[trigger] sources[j],
            ) by {
                if j < sources_before.len() {
                    assert(sources[j] == sources_before[j]);
                    let k = choose|k: int|
                        0 <= k < i && k < places.len() && (#[trigger] places[k]).source
                            == sources_before[j];
                    assert(places[k].source == sources[j]);
                } else {
                    assert(places[i as int].source == sources[j]);
                }
            }
            assert forall|j: int| 0 <= j < faults.len() implies refuses(
                places,
                i + 1,
                #[trigger] faults[j],
            ) by {
                if j < refused_before.len() {
                    assert(faults[j] == refused_before[j]);
                    let k = choose|k: int|
                        0 <= k < i && k < places.len() && refusal(#[trigger] places[k])
                            == refused_before[j];
                    assert(refusal(places[k]) == faults[j]);
                } else {
                    assert(refusal(places[i as int]) == faults[j]);
                }
            }
        }
        i = i + 1;
    }
    (patterns, refused)
}

/// A place where one of the first `n` attributes of a field declares a pattern is among the
/// places of the field.
pub proof fn lemma_field_pattern_uses(attrs: Seq<Attribute>, field: nat, n: nat, j: int)
    requires
        0 <= j < n <= attrs.len(),
        declared_pattern(attrs[j]) is Some,
    ensures
        field_pattern_uses(attrs, field, n).contains(
            PatternUseView {
                field,
                attribute: j as nat,
                source: declared_pattern(attrs[j])->Some_0,
            },
        ),
    decreases n,
{
    let place = PatternUseView {
        field,
        attribute: j as nat,
        source: declared_pattern(attrs[j])->Some_0,
    };
    let before = field_pattern_uses(attrs, field, (n - 1) as nat);
    let after = field_pattern_uses(attrs, field, n);
    if j == n - 1 {
        assert(after[before.len() as int] == place);
    } else {
        lemma_field_pattern_uses(attrs, field, (n - 1) as nat, j);
        let at = choose|at: int| 0 <= at < before.len() && before[at] == place;
        assert(after[at] == place);
    }
}

/// A place where one of the first `n` fields declares a pattern is among the places of the
/// fields.
pub proof fn lemma_pattern_uses(fields: Seq<FieldDeclaration>, n: nat, i: int, j: int)
    requires
        0 <= i < n <= fields.len(),
        0 <= j < fields[i].attrs@.len(),
        declared_pattern(fields[i].attrs@[j]) is Some,
    ensures
        pattern_uses(fields, n).contains(
            PatternUseView {
                field: i as nat,
                attribute: j as nat,
                source: declared_pattern(fields[i].attrs@[j])->Some_0,
            },
        ),
    decreases n,
{
    let place = PatternUseView {
        field: i as nat,
        attribute: j as nat,
        source: declared_pattern(fields[i].attrs@[j])->Some_0,
    };
    let before = pattern_uses(fields, (n - 1) as nat);
    let last = field_pattern_uses(fields[n - 1].attrs@, (n - 1) as nat, fields[n - 1].attrs@.len());
    if i == n - 1 {
        lemma_field_pattern_uses(fields[i].attrs@, i as nat, fields[i].attrs@.len(), j);
        let at = choose|at: int| 0 <= at < last.len() && last[at] == place;
        assert((before + last)[before.len() + at] == place);
    } else {
        lemma_pattern_uses(fields, (n - 1) as nat, i, j);
        let at = choose|at: int| 0 <= at < before.len() && before[at] == place;
        assert((before + last)[at] == place);
    }
}

/// Where [`compile_patterns`] refused no place of the declarations, every pattern that a
/// declaration names is in the cache, so no declaration is refused because its pattern is not
/// found.
pub proof fn lemma_declared_pattern_is_found(
    fields: Seq<FieldDeclaration>,
    sources: Seq<Seq<char>>,
    i: int,
    j: int,
)
    requires
        answered(
            pattern_uses(fields, fields.len()),
            pattern_uses(fields, fields.len()).len() as int,
            sources,
            Seq::empty(),
        ),
        0 <= i < fields.len(),
        0 <= j < fields[i].attrs@.len(),
        declared_pattern(fields[i].attrs@[j]) is Some,
    ensures
        sources.contains(declared_pattern(fields[i].attrs@[j])->Some_0),
{
    let uses = pattern_uses(fields, fields.len());
    let place = PatternUseView {
        field: i as nat,
        attribute: j as nat,
        source: declared_pattern(fields[i].attrs@[j])->Some_0,
    };
    lemma_pattern_uses(fields, fields.len(), i, j);
    let at = choose|at: int| 0 <= at < uses.len() && uses[at] == place;
    assert(sources.contains(uses[at].source) || Seq::<LocatedView>::empty().contains(
        refusal(uses[at]),
    ));
}

/// An attribute that declares a pattern whose source is among the sources of the cache declares
/// the check of that pattern, with the message that is declared with it.
pub proof fn lemma_found_pattern_is_declared(
    attribute: Attribute,
    message: MessageView,
    functions: Seq<&str>,
    sources: Seq<Seq<char>>,
)
    requires
        declared_pattern(attribute) is Some,
        sources.contains(declared_pattern(attribute)->Some_0),
    ensures
        item_declared(validate_items(attribute)[0], message, functions, sources) == declared(
            ConstraintView::Pattern(declared_pattern(attribute)->Some_0),
            message,
        ),
{
    reveal_strlit("pattern");
    reveal_strlit("minimum");
    reveal_strlit("maximum");
    reveal_strlit("exclusive_minimum");
    reveal_strlit("exclusive_maximum");
    reveal_strlit("min_length");
    reveal_strlit("max_length");
    reveal_strlit("min_items");
    reveal_strlit("max_items");
    reveal_strlit("min_properties");
    reveal_strlit("max_properties");
    reveal_strlit("multiple_of");
    let item = validate_items(attribute)[0];
    let name_value = item->Meta_0->NameValue_0;
    assert(name_value.path@ == "pattern"@);
    assert("pattern"@[0] == 'p' && "pattern"@.len() == 7);
    assert("minimum"@[0] == 'm');
    assert("maximum"@[0] == 'm');
    assert("exclusive_minimum"@.len() == 17);
    assert("exclusive_maximum"@.len() == 17);
    assert("min_length"@.len() == 10);
    assert("max_length"@.len() == 10);
    assert("min_items"@.len() == 9);
    assert("max_items"@.len() == 9);
    assert("min_properties"@.len() == 14);
    assert("max_properties"@.len() == 14);
    assert("multiple_of"@.len() == 11);
    assert(MetaNameValueValidation::spec_from_str(name_value.path@) == Some(
        MetaNameValueValidation::Pattern,
    ));
}

} // verus!
