use crate::error::compose;
use crate::suggest::{did_you_mean, suggestions};
use vstd::prelude::*;
use vstd::string::StringExecFns;

verus! {

/// The kinds of fault that a declaration of constraints can have.
#[derive(Clone, Copy, Debug, PartialEq, Eq, Structural)]
pub enum ErrorKind {
    UnitStructNotSupport,
    UnionNotSupport,
    RuleNeedFunction,
    RuleAllowSingleFunction,
    RuleNeedArguments,
    ValidateMetaLiteralNotSupport,
    ValidateMetaNameValueNotSupport,
    ValidateNeedType,
    ValidateNeedValidator,
    ValidateFormatNeedItem,
    ValidateFormatTailError,
    ValidateEnumerateNeedItem,
    ValidateCustomNeedItem,
    ValidateCustomTailError,
    MessageFnNeedItem,
    MessageFnAllowNamePath,
    MessageFnTailError,
    LiteralOnly,
    NumericLiteralOnly,
    StrLiteralOnly,
    LiteralNotSupport,
    MetaNameValueNotSupport,
    MetaPathNotSupport,
    TooManyListItems,
    RuleAllowPathArguments,
    RuleAllowIndexArguments,
    RuleValidateAttributeParseError,
    ValidateMetaNameValueNeedValue,
    ValidateMetaPathNeedValue,
    ValidateMetaListNeedValue,
    ValidateAttributeParseError,
    PatternNotFound,
    PatternNotCompiled,
    FunctionNotFound,
    ValidateUnknownType,
}

impl ErrorKind {
    /// The text that reports a fault of the kind, up to the name that the text quotes, if it
    /// quotes one.
    pub open spec fn text(self) -> Seq<char> {
        match self {
            ErrorKind::UnitStructNotSupport => "#[derive(Validate)] does not support Unit Struct."@,
            ErrorKind::UnionNotSupport => "#[derive(Validate)] does not support Union."@,
            ErrorKind::RuleNeedFunction => "#[rule(???)] needs rule_fn."@,
            ErrorKind::RuleAllowSingleFunction => "#[rule] allow single function."@,
            ErrorKind::RuleNeedArguments => "`rule` function needs arguments."@,
            ErrorKind::ValidateMetaLiteralNotSupport => {
                "#[validate(???)] does not support literal."@
            },
            ErrorKind::ValidateMetaNameValueNotSupport => {
                "#[validate = ???] format does not support."@
            },
            ErrorKind::ValidateNeedType => "#[validate(???)] needs validation type."@,
            ErrorKind::ValidateNeedValidator => "it needs at least one validator"@,
            ErrorKind::ValidateFormatNeedItem => "#[validate(format(???))] need format_fn."@,
            ErrorKind::ValidateFormatTailError => "#[validate(format(???))] support only 1 item."@,
            ErrorKind::ValidateEnumerateNeedItem => "#[validate(enumerate(???, ...))] need items."@,
            ErrorKind::ValidateCustomNeedItem => "#[validate(custom(???))] need custom_fn."@,
            ErrorKind::ValidateCustomTailError => "#[validate(custom(???))] support only 1 item."@,
            ErrorKind::MessageFnNeedItem => "#[validate(..., message_fn(???))] need items."@,
            ErrorKind::MessageFnAllowNamePath => {
                "#[validate(..., message_fn(???))] allow only function name path."@
            },
            ErrorKind::MessageFnTailError => {
                "#[validate(..., message_fn(???))] support only 1 item."@
            },
            ErrorKind::LiteralOnly => "Allow literal only."@,
            ErrorKind::NumericLiteralOnly => "Allow numeric literal only."@,
            ErrorKind::StrLiteralOnly => "Allow str literal only."@,
            ErrorKind::LiteralNotSupport => "Literal does not support."@,
            ErrorKind::MetaNameValueNotSupport => "Name value does not support."@,
            ErrorKind::MetaPathNotSupport => "Path does not support."@,
            ErrorKind::TooManyListItems => "Too many list items."@,
            ErrorKind::RuleAllowPathArguments => "#[rule("@,
            ErrorKind::RuleAllowIndexArguments => "#[rule("@,
            ErrorKind::RuleValidateAttributeParseError => "#[rule] parse error: "@,
            ErrorKind::ValidateMetaNameValueNeedValue => "#[validate("@,
            ErrorKind::ValidateMetaPathNeedValue => "#[validate("@,
            ErrorKind::ValidateMetaListNeedValue => "#[validate("@,
            ErrorKind::ValidateAttributeParseError => "#[validate] parse error: "@,
            ErrorKind::PatternNotFound => "The pattern \""@,
            ErrorKind::PatternNotCompiled => "The pattern \""@,
            ErrorKind::FunctionNotFound => "The function `"@,
            ErrorKind::ValidateUnknownType => "Unknown: `"@,
        }
    }

    /// The text that follows the quoted name.
    pub open spec fn rest(self) -> Seq<char> {
        match self {
            ErrorKind::RuleAllowPathArguments => "(???, ...))] allow field path only."@,
            ErrorKind::RuleAllowIndexArguments => "(???, ...))] allow index integer only."@,
            ErrorKind::RuleValidateAttributeParseError => ""@,
            ErrorKind::ValidateMetaNameValueNeedValue => " = ???)] needs validation value."@,
            ErrorKind::ValidateMetaPathNeedValue => "(???))] needs validation path."@,
            ErrorKind::ValidateMetaListNeedValue => "(???, ...))] needs validation list."@,
            ErrorKind::ValidateAttributeParseError => ""@,
            ErrorKind::PatternNotFound => "\" is not among the patterns of the caller."@,
            ErrorKind::PatternNotCompiled => "\" could not be compiled."@,
            ErrorKind::FunctionNotFound => "` is not among the functions of the caller."@,
            ErrorKind::ValidateUnknownType => "`. Is it one of the following?\n"@,
            _ => Seq::empty(),
        }
    }
}

/// A fault in a declaration of constraints: its kind and the text that reports it.
#[derive(Debug)]
pub struct Error {
    pub kind: ErrorKind,
    pub message: String,
}

/// A declaration fault as contracts see it.
pub struct ErrorView {
    pub kind: ErrorKind,
    pub message: Seq<char>,
}

impl View for Error {
    type V = ErrorView;

    open spec fn view(&self) -> ErrorView {
        ErrorView { kind: self.kind, message: self.message@ }
    }
}

/// The faults of a list, as contracts see them.
pub open spec fn error_views(errors: Seq<Error>) -> Seq<ErrorView> {
    errors.map_values(|error: Error| error@)
}

/// A fault whose text quotes nothing.
pub open spec fn fault(kind: ErrorKind) -> ErrorView {
    ErrorView { kind, message: kind.text() }
}

/// A fault whose text quotes a name.
pub open spec fn fault_of(kind: ErrorKind, name: Seq<char>) -> ErrorView {
    ErrorView { kind, message: kind.text() + name + kind.rest() }
}

/// How a list of names is shown in a message: each name on a line of its own, as the debug
/// format of the standard library lays a list out.
pub uninterp spec fn listed(names: Seq<Seq<char>>) -> Seq<char>;

/// The pretty debug format (`{:#?}`) of the standard library for a list of texts. It depends on
/// the texts alone.
#[verifier::external_body]
fn list_names(names: &Vec<&str>) -> (text: String)
    ensures
        text@ == listed(names@.map_values(|name: &str| name@)),
{
    format!("{names:#?}")
}

/// The names that the message about an unknown name offers: the candidates that are similar to
/// it, or all candidates where none is.
pub open spec fn offered(unknown: Seq<char>, candidates: Seq<&str>) -> Seq<Seq<char>> {
    if suggestions(unknown, candidates).len() > 0 {
        suggestions(unknown, candidates)
    } else {
        candidates.map_values(|name: &str| name@)
    }
}

/// The fault of a name that is none of the candidates.
pub open spec fn unknown_type(unknown: Seq<char>, candidates: Seq<&str>) -> ErrorView {
    ErrorView {
        kind: ErrorKind::ValidateUnknownType,
        message: ErrorKind::ValidateUnknownType.text() + unknown
            + ErrorKind::ValidateUnknownType.rest() + listed(offered(unknown, candidates)),
    }
}

impl Error {
    fn new(kind: ErrorKind, message: String) -> (error: Self)
        ensures
            error.kind == kind,
            error.message == message,
    {
        Error { kind, message }
    }

    /// The text that reports the fault.
    pub fn message(&self) -> (message: &str)
        ensures
            message@ == self@.message,
    {
        self.message.as_str()
    }

    pub fn unit_struct_not_support() -> (error: Self)
        ensures
            error@ == fault(ErrorKind::UnitStructNotSupport),
    {
        Self::new(
            ErrorKind::UnitStructNotSupport,
            "#[derive(Validate)] does not support Unit Struct.".to_owned(),
        )
    }

    pub fn union_not_support() -> (error: Self)
        ensures
            error@ == fault(ErrorKind::UnionNotSupport),
    {
        Self::new(
            ErrorKind::UnionNotSupport,
            "#[derive(Validate)] does not support Union.".to_owned(),
        )
    }

    pub fn rule_need_function() -> (error: Self)
        ensures
            error@ == fault(ErrorKind::RuleNeedFunction),
    {
        Self::new(ErrorKind::RuleNeedFunction, "#[rule(???)] needs rule_fn.".to_owned())
    }

    pub fn rule_allow_single_function() -> (error: Self)
        ensures
            error@ == fault(ErrorKind::RuleAllowSingleFunction),
    {
        Self::new(ErrorKind::RuleAllowSingleFunction, "#[rule] allow single function.".to_owned())
    }

    pub fn rule_need_arguments() -> (error: Self)
        ensures
            error@ == fault(ErrorKind::RuleNeedArguments),
    {
        Self::new(ErrorKind::RuleNeedArguments, "`rule` function needs arguments.".to_owned())
    }

    pub fn validate_meta_literal_not_support() -> (error: Self)
        ensures
            error@ == fault(ErrorKind::ValidateMetaLiteralNotSupport),
    {
        Self::new(
            ErrorKind::ValidateMetaLiteralNotSupport,
            "#[validate(???)] does not support literal.".to_owned(),
        )
    }

    pub fn validate_meta_name_value_not_support() -> (error: Self)
        ensures
            error@ == fault(ErrorKind::ValidateMetaNameValueNotSupport),
    {
        Self::new(
            ErrorKind::ValidateMetaNameValueNotSupport,
            "#[validate = ???] format does not support.".to_owned(),
        )
    }

    pub fn validate_need_type() -> (error: Self)
        ensures
            error@ == fault(ErrorKind::ValidateNeedType),
    {
        Self::new(ErrorKind::ValidateNeedType, "#[validate(???)] needs validation type.".to_owned())
    }

    pub fn validate_need_validator() -> (error: Self)
        ensures
            error@ == fault(ErrorKind::ValidateNeedValidator),
    {
        Self::new(ErrorKind::ValidateNeedValidator, "it needs at least one validator".to_owned())
    }

    pub fn validate_format_need_item() -> (error: Self)
        ensures
            error@ == fault(ErrorKind::ValidateFormatNeedItem),
    {
        Self::new(
            ErrorKind::ValidateFormatNeedItem,
            "#[validate(format(???))] need format_fn.".to_owned(),
        )
    }

    pub fn validate_format_tail_error() -> (error: Self)
        ensures
            error@ == fault(ErrorKind::ValidateFormatTailError),
    {
        Self::new(
            ErrorKind::ValidateFormatTailError,
            "#[validate(format(???))] support only 1 item.".to_owned(),
        )
    }

    pub fn validate_enumerate_need_item() -> (error: Self)
        ensures
            error@ == fault(ErrorKind::ValidateEnumerateNeedItem),
    {
        Self::new(
            ErrorKind::ValidateEnumerateNeedItem,
            "#[validate(enumerate(???, ...))] need items.".to_owned(),
        )
    }

    pub fn validate_custom_need_item() -> (error: Self)
        ensures
            error@ == fault(ErrorKind::ValidateCustomNeedItem),
    {
        Self::new(
            ErrorKind::ValidateCustomNeedItem,
            "#[validate(custom(???))] need custom_fn.".to_owned(),
        )
    }

    pub fn validate_custom_tail_error() -> (error: Self)
        ensures
            error@ == fault(ErrorKind::ValidateCustomTailError),
    {
        Self::new(
            ErrorKind::ValidateCustomTailError,
            "#[validate(custom(???))] support only 1 item.".to_owned(),
        )
    }

    pub fn message_fn_need_item() -> (error: Self)
        ensures
            error@ == fault(ErrorKind::MessageFnNeedItem),
    {
        Self::new(
            ErrorKind::MessageFnNeedItem,
            "#[validate(..., message_fn(???))] need items.".to_owned(),
        )
    }

    pub fn message_fn_allow_name_path() -> (error: Self)
        ensures
            error@ == fault(ErrorKind::MessageFnAllowNamePath),
    {
        Self::new(
            ErrorKind::MessageFnAllowNamePath,
            "#[validate(..., message_fn(???))] allow only function name path.".to_owned(),
        )
    }

    pub fn message_fn_tail_error() -> (error: Self)
        ensures
            error@ == fault(ErrorKind::MessageFnTailError),
    {
        Self::new(
            ErrorKind::MessageFnTailError,
            "#[validate(..., message_fn(???))] support only 1 item.".to_owned(),
        )
    }

    pub fn literal_only() -> (error: Self)
        ensures
            error@ == fault(ErrorKind::LiteralOnly),
    {
        Self::new(ErrorKind::LiteralOnly, "Allow literal only.".to_owned())
    }

    pub fn numeric_literal_only() -> (error: Self)
        ensures
            error@ == fault(ErrorKind::NumericLiteralOnly),
    {
        Self::new(ErrorKind::NumericLiteralOnly, "Allow numeric literal only.".to_owned())
    }

    pub fn str_literal_only() -> (error: Self)
        ensures
            error@ == fault(ErrorKind::StrLiteralOnly),
    {
        Self::new(ErrorKind::StrLiteralOnly, "Allow str literal only.".to_owned())
    }

    pub fn literal_not_support() -> (error: Self)
        ensures
            error@ == fault(ErrorKind::LiteralNotSupport),
    {
        Self::new(ErrorKind::LiteralNotSupport, "Literal does not support.".to_owned())
    }

    pub fn meta_name_value_not_support() -> (error: Self)
        ensures
            error@ == fault(ErrorKind::MetaNameValueNotSupport),
    {
        Self::new(ErrorKind::MetaNameValueNotSupport, "Name value does not support.".to_owned())
    }

    pub fn meta_path_not_support() -> (error: Self)
        ensures
            error@ == fault(ErrorKind::MetaPathNotSupport),
    {
        Self::new(ErrorKind::MetaPathNotSupport, "Path does not support.".to_owned())
    }

    pub fn too_many_list_items() -> (error: Self)
        ensures
            error@ == fault(ErrorKind::TooManyListItems),
    {
        Self::new(ErrorKind::TooManyListItems, "Too many list items.".to_owned())
    }

    pub fn rule_allow_path_arguments(rule_fn_name: &str) -> (error: Self)
        ensures
            error@ == fault_of(ErrorKind::RuleAllowPathArguments, rule_fn_name@),
    {
        Self::new(
            ErrorKind::RuleAllowPathArguments,
            compose(
                "#[rule(",
                rule_fn_name,
                "(???, ...))] allow field path only.",
            ),
        )
    }

    pub fn rule_allow_index_arguments(rule_fn_name: &str) -> (error: Self)
        ensures
            error@ == fault_of(ErrorKind::RuleAllowIndexArguments, rule_fn_name@),
    {
        Self::new(
            ErrorKind::RuleAllowIndexArguments,
            compose(
                "#[rule(",
                rule_fn_name,
                "(???, ...))] allow index integer only.",
            ),
        )
    }

    pub fn rule_validate_attribute_parse_error(parse_error: &str) -> (error: Self)
        ensures
            error@ == fault_of(ErrorKind::RuleValidateAttributeParseError, parse_error@),
    {
        Self::new(
            ErrorKind::RuleValidateAttributeParseError,
            compose(
                "#[rule] parse error: ",
                parse_error,
                "",
            ),
        )
    }

    pub fn validate_meta_name_value_need_value(validation_type: &str) -> (error: Self)
        ensures
            error@ == fault_of(ErrorKind::ValidateMetaNameValueNeedValue, validation_type@),
    {
        Self::new(
            ErrorKind::ValidateMetaNameValueNeedValue,
            compose(
                "#[validate(",
                validation_type,
                " = ???)] needs validation value.",
            ),
        )
    }

    pub fn validate_meta_path_need_value(validation_type: &str) -> (error: Self)
        ensures
            error@ == fault_of(ErrorKind::ValidateMetaPathNeedValue, validation_type@),
    {
        Self::new(
            ErrorKind::ValidateMetaPathNeedValue,
            compose(
                "#[validate(",
                validation_type,
                "(???))] needs validation path.",
            ),
        )
    }

    pub fn validate_meta_list_need_value(validation_type: &str) -> (error: Self)
        ensures
            error@ == fault_of(ErrorKind::ValidateMetaListNeedValue, validation_type@),
    {
        Self::new(
            ErrorKind::ValidateMetaListNeedValue,
            compose(
                "#[validate(",
                validation_type,
                "(???, ...))] needs validation list.",
            ),
        )
    }

    pub fn validate_attribute_parse_error(parse_error: &str) -> (error: Self)
        ensures
            error@ == fault_of(ErrorKind::ValidateAttributeParseError, parse_error@),
    {
        Self::new(
            ErrorKind::ValidateAttributeParseError,
            compose(
                "#[validate] parse error: ",
                parse_error,
                "",
            ),
        )
    }

    pub fn pattern_not_found(pattern: &str) -> (error: Self)
        ensures
            error@ == fault_of(ErrorKind::PatternNotFound, pattern@),
    {
        Self::new(
            ErrorKind::PatternNotFound,
            compose(
                "The pattern \"",
                pattern,
                "\" is not among the patterns of the caller.",
            ),
        )
    }

    pub fn pattern_not_compiled(pattern: &str) -> (error: Self)
        ensures
            error@ == fault_of(ErrorKind::PatternNotCompiled, pattern@),
    {
        Self::new(
            ErrorKind::PatternNotCompiled,
            compose(
                "The pattern \"",
                pattern,
                "\" could not be compiled.",
            ),
        )
    }

    pub fn function_not_found(name: &str) -> (error: Self)
        ensures
            error@ == fault_of(ErrorKind::FunctionNotFound, name@),
    {
        Self::new(
            ErrorKind::FunctionNotFound,
            compose(
                "The function `",
                name,
                "` is not among the functions of the caller.",
            ),
        )
    }

    /// The fault of a name that is none of the candidates. The message offers the candidates
    /// that are similar to the name, the most similar first, or all candidates where none is.
    pub fn validate_unknown_type(unknown: &str, candidates: &[&'static str]) -> (error: Self)
        ensures
            error@ == unknown_type(unknown@, candidates@),
    {
        let filtered_candidates: Vec<&str> = match did_you_mean(unknown, candidates) {
            Some(similar) => similar,
            None => names_of(candidates),
        };
        let list: String = list_names(&filtered_candidates);
        let mut message: String = compose(
            "Unknown: `",
            unknown,
            "`. Is it one of the following?\n",
        );
        message.append(list.as_str());
        proof {
            assert(filtered_candidates@.map_values(|name: &str| name@) =~= offered(
                unknown@,
                candidates@,
            ));
            assert(message@ =~= unknown_type(unknown@, candidates@).message);
        }
        Self::new(ErrorKind::ValidateUnknownType, message)
    }
}

/// The candidates as a list of their own.
fn names_of<'a>(candidates: &[&'a str]) -> (names: Vec<&'a str>)
    ensures
        names@.map_values(|name: &str| name@) == candidates@.map_values(|name: &str| name@),
{
    let mut names: Vec<&'a str> = Vec::new();
    let mut i: usize = 0;
    while i < candidates.len()
        invariant
            i <= candidates@.len(),
            names@.len() == i,
            forall|k: int| 0 <= k < i ==> (#[trigger] names@[k])@ == candidates@[k]@,
        decreases candidates@.len() - i,
    {
        names.push(candidates[i]);
        i = i + 1;
    }
    proof {
        assert(names@.map_values(|name: &str| name@) =~= candidates@.map_values(
            |name: &str| name@,
        ));
    }
    names
}

/// The faults of one declaration.
pub type Errors = Vec<Error>;

} // verus!
