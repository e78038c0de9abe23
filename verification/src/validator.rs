use crate::error::Literal;
use crate::validation::Pattern;
use vstd::prelude::*;

verus! {

/// One declared constraint, with its bound or parameter.
#[derive(Debug, Clone)]
pub enum Constraint {
    Minimum(crate::error::Number),
    Maximum(crate::error::Number),
    ExclusiveMinimum(crate::error::Number),
    ExclusiveMaximum(crate::error::Number),
    MultipleOf(crate::error::Number),
    MinLength(usize),
    MaxLength(usize),
    Pattern(Pattern),
    MinItems(usize),
    MaxItems(usize),
    UniqueItems,
    MinProperties(usize),
    MaxProperties(usize),
    Enumerate(Vec<Literal>),
    /// A format predicate of the caller, by its number.
    Format(usize),
    /// A custom predicate of the caller, by its number.
    Custom(usize),
    /// The value is a struct that is validated in turn.
    Nested,
}

impl Constraint {
    /// Whether the constraint speaks of a sequence as a whole rather than of its elements.
    pub open spec fn on_items(self) -> bool {
        self is MinItems || self is MaxItems || self is UniqueItems
    }

    /// Whether the constraint speaks of a sequence as a whole rather than of its elements.
    pub fn is_on_items(&self) -> (on_items: bool)
        ensures
            on_items == self.on_items(),
    {
        match self {
            Constraint::MinItems(_) => true,
            Constraint::MaxItems(_) => true,
            Constraint::UniqueItems => true,
            _ => false,
        }
    }
}

/// Where the text of a message comes from.
#[derive(Debug, Clone)]
pub enum MessageSource {
    /// The default message of the failure.
    Default,
    /// A text declared in place of the message.
    Text(String),
    /// A message function of the caller, by its number.
    Function(usize),
}

/// A constraint as it was declared on a field: the constraint and the source of its message.
#[derive(Debug, Clone)]
pub struct Check {
    pub constraint: Constraint,
    pub message: MessageSource,
}

impl Check {
    /// A constraint that is reported with its default message.
    pub fn new(constraint: Constraint) -> (check: Self)
        ensures
            check.constraint == constraint,
            check.message is Default,
    {
        Check { constraint, message: MessageSource::Default }
    }

    /// A constraint that is reported with `message`.
    pub fn with_message(constraint: Constraint, message: &str) -> (check: Self)
        ensures
            check.constraint == constraint,
            check.message matches MessageSource::Text(text) && text@ == message@,
    {
        Check { constraint, message: MessageSource::Text(message.to_owned()) }
    }

    /// A constraint that is reported with what the message function `message_fn` renders.
    pub fn with_message_fn(constraint: Constraint, message_fn: usize) -> (check: Self)
        ensures
            check.constraint == constraint,
            check.message == MessageSource::Function(message_fn),
    {
        Check { constraint, message: MessageSource::Function(message_fn) }
    }
}

/// The declared shape of a field's value.
#[derive(Debug)]
pub enum Shape {
    Scalar,
    Optional(Box<Shape>),
    Sequence(Box<Shape>),
    Nested,
}

impl Shape {
    /// A second shape that is the same.
    pub fn duplicate(&self) -> (copy: Shape)
        ensures
            copy == *self,
        decreases self,
    {
        match self {
            Shape::Scalar => Shape::Scalar,
            Shape::Optional(inner) => Shape::Optional(Box::new(inner.duplicate())),
            Shape::Sequence(inner) => Shape::Sequence(Box::new(inner.duplicate())),
            Shape::Nested => Shape::Nested,
        }
    }

    /// The shape of the elements, where the shape is a sequence.
    pub fn array_field(&self) -> (elements: Option<&Shape>)
        ensures
            match *self {
                Shape::Sequence(inner) => elements == Some(&*inner),
                _ => elements is None,
            },
    {
        match self {
            Shape::Sequence(inner) => Some(&**inner),
            _ => None,
        }
    }

    /// The shape of the content, where the shape is an optional.
    pub fn option_field(&self) -> (content: Option<&Shape>)
        ensures
            match *self {
                Shape::Optional(inner) => content == Some(&*inner),
                _ => content is None,
            },
    {
        match self {
            Shape::Optional(inner) => Some(&**inner),
            _ => None,
        }
    }
}

impl Clone for Shape {
    fn clone(&self) -> (copy: Self)
        ensures
            copy == *self,
    {
        self.duplicate()
    }
}

/// A check together with the path of wrappers that leads from the field to the value that it
/// speaks of.
#[derive(Debug)]
pub enum Validator {
    Normal(Check),
    Option(Box<Validator>),
    Array(Box<Validator>),
}

/// The validator that applies `check` where the declared shape of the field asks for it: the
/// elements of a sequence for a constraint on values, the sequence itself for a constraint on
/// items, the content of an optional in either case.
pub open spec fn validator_for(check: Check, shape: Shape) -> Validator
    decreases shape,
{
    match shape {
        Shape::Sequence(inner) => if check.constraint.on_items() {
            Validator::Normal(check)
        } else {
            Validator::Array(Box::new(validator_for(check, *inner)))
        },
        Shape::Optional(inner) => Validator::Option(Box::new(validator_for(check, *inner))),
        _ => Validator::Normal(check),
    }
}

impl Validator {
    /// The validator that applies `check` at the place that the declared shape asks for.
    pub fn new(check: Check, shape: &Shape) -> (validator: Validator)
        ensures
            validator == validator_for(check, *shape),
            validator@ == validator_view_for(check@, *shape),
        decreases shape,
    {
        proof {
            lemma_validator_view_for(check, *shape);
        }
        match shape {
            Shape::Sequence(inner) => {
                if check.constraint.is_on_items() {
                    Validator::Normal(check)
                } else {
                    Validator::Array(Box::new(Validator::new(check, inner)))
                }
            },
            Shape::Optional(inner) => Validator::Option(Box::new(Validator::new(check, inner))),
            _ => Validator::Normal(check),
        }
    }
}

/// The checks of one field: the declared shape of the field, the checks on the value itself, in
/// declared order, those on the content of an optional value, and those on the elements of a
/// sequence.
#[derive(Debug)]
pub struct FieldValidators {
    pub shape: Shape,
    pub validators: Vec<Check>,
    pub optional_validators: Option<Box<FieldValidators>>,
    pub array_validators: Option<Box<FieldValidators>>,
}

/// A [`FieldValidators`] as contracts see it.
pub struct ValidatorsView {
    pub shape: Shape,
    pub checks: Seq<Check>,
    pub optional: Option<Box<ValidatorsView>>,
    pub array: Option<Box<ValidatorsView>>,
}

pub open spec fn validators_view(validators: FieldValidators) -> ValidatorsView
    decreases validators,
{
    ValidatorsView {
        shape: validators.shape,
        checks: validators.validators@,
        optional: match validators.optional_validators {
            Some(inner) => Some(Box::new(validators_view(*inner))),
            None => None,
        },
        array: match validators.array_validators {
            Some(inner) => Some(Box::new(validators_view(*inner))),
            None => None,
        },
    }
}

impl View for FieldValidators {
    type V = ValidatorsView;

    open spec fn view(&self) -> ValidatorsView {
        validators_view(*self)
    }
}

/// No checks at any level, for a field of the given shape.
pub open spec fn no_validators(shape: Shape) -> ValidatorsView {
    ValidatorsView { shape, checks: Seq::empty(), optional: None, array: None }
}

/// The checks after `validator` was added.
///
/// A check on the value itself goes to the end of the list. One behind an optional goes, in the
/// same way, into the checks of the content of the optional. Where there is no such level yet, it
/// is made for the shape of the content if the shape of the field is an optional; if it is not,
/// the validator is dropped and nothing changes. One behind a sequence goes likewise into the
/// checks of the elements, made on demand only for a field whose shape is a sequence.
pub open spec fn with_validator(validators: ValidatorsView, validator: Validator) -> ValidatorsView
    decreases validator,
{
    match validator {
        Validator::Normal(check) => ValidatorsView {
            shape: validators.shape,
            checks: validators.checks.push(check),
            optional: validators.optional,
            array: validators.array,
        },
        Validator::Option(inner) => match validators.optional {
            Some(level) => ValidatorsView {
                shape: validators.shape,
                checks: validators.checks,
                optional: Some(Box::new(with_validator(*level, *inner))),
                array: validators.array,
            },
            None => match validators.shape {
                Shape::Optional(content) => ValidatorsView {
                    shape: validators.shape,
                    checks: validators.checks,
                    optional: Some(Box::new(with_validator(no_validators(*content), *inner))),
                    array: validators.array,
                },
                _ => validators,
            },
        },
        Validator::Array(inner) => match validators.array {
            Some(level) => ValidatorsView {
                shape: validators.shape,
                checks: validators.checks,
                optional: validators.optional,
                array: Some(Box::new(with_validator(*level, *inner))),
            },
            None => match validators.shape {
                Shape::Sequence(elements) => ValidatorsView {
                    shape: validators.shape,
                    checks: validators.checks,
                    optional: validators.optional,
                    array: Some(Box::new(with_validator(no_validators(*elements), *inner))),
                },
                _ => validators,
            },
        },
    }
}

impl FieldValidators {
    /// No checks, for a field of the given shape.
    pub fn new(shape: Shape) -> (validators: Self)
        ensures
            validators@ == no_validators(shape),
            validators.shape == shape,
    {
        FieldValidators {
            shape,
            validators: Vec::new(),
            optional_validators: None,
            array_validators: None,
        }
    }

    /// Adds a validator at the level that its wrappers name. A validator for the content of an
    /// optional or for the elements of a sequence is dropped where the field has no such level
    /// yet and its shape offers none.
    pub fn push(&mut self, validator: Validator)
        ensures
            final(self).shape == old(self).shape,
            final(self)@ == with_validator(old(self)@, validator),
        decreases validator,
    {
        match validator {
            Validator::Normal(check) => self.validators.push(check),
            Validator::Option(ty) => match &mut self.optional_validators {
                Some(optional_validator) => optional_validator.push(*ty),
                None => {
                    if let Some(field) = self.shape.option_field() {
                        let mut option_validators = Box::new(
                            FieldValidators::new(field.duplicate()),
                        );
                        option_validators.push(*ty);
                        self.optional_validators = Some(option_validators);
                    }
                },
            },
            Validator::Array(ty) => match &mut self.array_validators {
                Some(array_validator) => array_validator.push(*ty),
                None => {
                    if let Some(field) = self.shape.array_field() {
                        let mut array_validators = Box::new(
                            FieldValidators::new(field.duplicate()),
                        );
                        array_validators.push(*ty);
                        self.array_validators = Some(array_validators);
                    }
                },
            },
        }
    }
}

/// A [`Constraint`] as contracts see it.
pub enum ConstraintView {
    Minimum(crate::error::Number),
    Maximum(crate::error::Number),
    ExclusiveMinimum(crate::error::Number),
    ExclusiveMaximum(crate::error::Number),
    MultipleOf(crate::error::Number),
    MinLength(nat),
    MaxLength(nat),
    Pattern(Seq<char>),
    MinItems(nat),
    MaxItems(nat),
    UniqueItems,
    MinProperties(nat),
    MaxProperties(nat),
    Enumerate(Seq<crate::error::LiteralView>),
    Format(usize),
    Custom(usize),
    Nested,
}

impl ConstraintView {
    /// Whether the constraint speaks of a sequence as a whole rather than of its elements.
    pub open spec fn on_items(self) -> bool {
        self is MinItems || self is MaxItems || self is UniqueItems
    }
}

impl View for Constraint {
    type V = ConstraintView;

    open spec fn view(&self) -> ConstraintView {
        match self {
            Constraint::Minimum(n) => ConstraintView::Minimum(*n),
            Constraint::Maximum(n) => ConstraintView::Maximum(*n),
            Constraint::ExclusiveMinimum(n) => ConstraintView::ExclusiveMinimum(*n),
            Constraint::ExclusiveMaximum(n) => ConstraintView::ExclusiveMaximum(*n),
            Constraint::MultipleOf(n) => ConstraintView::MultipleOf(*n),
            Constraint::MinLength(n) => ConstraintView::MinLength(*n as nat),
            Constraint::MaxLength(n) => ConstraintView::MaxLength(*n as nat),
            Constraint::Pattern(pattern) => ConstraintView::Pattern(pattern@),
            Constraint::MinItems(n) => ConstraintView::MinItems(*n as nat),
            Constraint::MaxItems(n) => ConstraintView::MaxItems(*n as nat),
            Constraint::UniqueItems => ConstraintView::UniqueItems,
            Constraint::MinProperties(n) => ConstraintView::MinProperties(*n as nat),
            Constraint::MaxProperties(n) => ConstraintView::MaxProperties(*n as nat),
            Constraint::Enumerate(candidates) => ConstraintView::Enumerate(
                crate::error::generic::literal_views(candidates@),
            ),
            Constraint::Format(id) => ConstraintView::Format(*id),
            Constraint::Custom(id) => ConstraintView::Custom(*id),
            Constraint::Nested => ConstraintView::Nested,
        }
    }
}

/// A [`MessageSource`] as contracts see it.
pub enum MessageView {
    Default,
    Text(Seq<char>),
    Function(usize),
}

impl View for MessageSource {
    type V = MessageView;

    open spec fn view(&self) -> MessageView {
        match self {
            MessageSource::Default => MessageView::Default,
            MessageSource::Text(text) => MessageView::Text(text@),
            MessageSource::Function(id) => MessageView::Function(*id),
        }
    }
}

/// A [`Check`] as contracts see it.
pub struct CheckView {
    pub constraint: ConstraintView,
    pub message: MessageView,
}

impl View for Check {
    type V = CheckView;

    open spec fn view(&self) -> CheckView {
        CheckView { constraint: self.constraint@, message: self.message@ }
    }
}

/// A [`Validator`] as contracts see it.
pub enum ValidatorView {
    Normal(CheckView),
    Option(Box<ValidatorView>),
    Array(Box<ValidatorView>),
}

pub open spec fn validator_view(validator: Validator) -> ValidatorView
    decreases validator,
{
    match validator {
        Validator::Normal(check) => ValidatorView::Normal(check@),
        Validator::Option(inner) => ValidatorView::Option(Box::new(validator_view(*inner))),
        Validator::Array(inner) => ValidatorView::Array(Box::new(validator_view(*inner))),
    }
}

impl View for Validator {
    type V = ValidatorView;

    open spec fn view(&self) -> ValidatorView {
        validator_view(*self)
    }
}

/// What [`validator_for`] gives, as contracts see it.
pub open spec fn validator_view_for(check: CheckView, shape: Shape) -> ValidatorView
    decreases shape,
{
    match shape {
        Shape::Sequence(inner) => if check.constraint.on_items() {
            ValidatorView::Normal(check)
        } else {
            ValidatorView::Array(Box::new(validator_view_for(check, *inner)))
        },
        Shape::Optional(inner) => ValidatorView::Option(
            Box::new(validator_view_for(check, *inner)),
        ),
        _ => ValidatorView::Normal(check),
    }
}

/// The view of the validator for a check is the validator for the view of the check.
pub proof fn lemma_validator_view_for(check: Check, shape: Shape)
    ensures
        validator_for(check, shape)@ == validator_view_for(check@, shape),
    decreases shape,
{
    match shape {
        Shape::Sequence(inner) => {
            if !check.constraint.on_items() {
                lemma_validator_view_for(check, *inner);
            }
        },
        Shape::Optional(inner) => {
            lemma_validator_view_for(check, *inner);
        },
        _ => {},
    }
}

/// The checks of a field as contracts see them where the checks themselves are compared by what
/// they hold.
pub struct DeclaredView {
    pub shape: Shape,
    pub checks: Seq<CheckView>,
    pub optional: Option<Box<DeclaredView>>,
    pub array: Option<Box<DeclaredView>>,
}

pub open spec fn declared_view(validators: ValidatorsView) -> DeclaredView
    decreases validators,
{
    DeclaredView {
        shape: validators.shape,
        checks: validators.checks.map_values(|check: Check| check@),
        optional: match validators.optional {
            Some(inner) => Some(Box::new(declared_view(*inner))),
            None => None,
        },
        array: match validators.array {
            Some(inner) => Some(Box::new(declared_view(*inner))),
            None => None,
        },
    }
}

/// No checks at any level, for a field of the given shape.
pub open spec fn nothing_declared(shape: Shape) -> DeclaredView {
    DeclaredView { shape, checks: Seq::empty(), optional: None, array: None }
}

/// What [`with_validator`] gives, where the checks are compared by what they hold.
pub open spec fn with_declared(declared: DeclaredView, validator: ValidatorView) -> DeclaredView
    decreases validator,
{
    match validator {
        ValidatorView::Normal(check) => DeclaredView {
            shape: declared.shape,
            checks: declared.checks.push(check),
            optional: declared.optional,
            array: declared.array,
        },
        ValidatorView::Option(inner) => match declared.optional {
            Some(level) => DeclaredView {
                shape: declared.shape,
                checks: declared.checks,
                optional: Some(Box::new(with_declared(*level, *inner))),
                array: declared.array,
            },
            None => match declared.shape {
                Shape::Optional(content) => DeclaredView {
                    shape: declared.shape,
                    checks: declared.checks,
                    optional: Some(Box::new(with_declared(nothing_declared(*content), *inner))),
                    array: declared.array,
                },
                _ => declared,
            },
        },
        ValidatorView::Array(inner) => match declared.array {
            Some(level) => DeclaredView {
                shape: declared.shape,
                checks: declared.checks,
                optional: declared.optional,
                array: Some(Box::new(with_declared(*level, *inner))),
            },
            None => match declared.shape {
                Shape::Sequence(elements) => DeclaredView {
                    shape: declared.shape,
                    checks: declared.checks,
                    optional: declared.optional,
                    array: Some(Box::new(with_declared(nothing_declared(*elements), *inner))),
                },
                _ => declared,
            },
        },
    }
}

/// Adding a validator adds what it holds at the level that its wrappers name.
pub proof fn lemma_with_declared(validators: ValidatorsView, validator: Validator)
    ensures
        declared_view(with_validator(validators, validator)) == with_declared(
            declared_view(validators),
            validator@,
        ),
    decreases validator,
{
    match validator {
        Validator::Normal(check) => {
            assert(validators.checks.push(check).map_values(|check: Check| check@)
                =~= validators.checks.map_values(|check: Check| check@).push(check@));
        },
        Validator::Option(inner) => {
            match validators.optional {
                Some(level) => lemma_with_declared(*level, *inner),
                None => match validators.shape {
                    Shape::Optional(content) => {
                        lemma_nothing_declared(*content);
                        lemma_with_declared(no_validators(*content), *inner);
                    },
                    _ => {},
                },
            }
        },
        Validator::Array(inner) => {
            match validators.array {
                Some(level) => lemma_with_declared(*level, *inner),
                None => match validators.shape {
                    Shape::Sequence(elements) => {
                        lemma_nothing_declared(*elements);
                        lemma_with_declared(no_validators(*elements), *inner);
                    },
                    _ => {},
                },
            }
        },
    }
}

/// Where no check is declared, none is declared by what it holds.
pub proof fn lemma_nothing_declared(shape: Shape)
    ensures
        declared_view(no_validators(shape)) == nothing_declared(shape),
{
    assert(no_validators(shape).checks.map_values(|check: Check| check@) =~= Seq::<
        CheckView,
    >::empty());
}

} // verus!
