use crate::text::str_equal;
use vstd::prelude::*;

verus! {

/// The validations that are declared as a list: `format(..)`, `enumerate(..)`, `custom(..)`.
#[derive(Clone, Copy, Debug, PartialEq, Eq, Structural)]
pub enum MetaListValidation {
    Format,
    Enumerate,
    Custom,
}

impl MetaListValidation {
    /// The name as it is written in a declaration.
    pub open spec fn spec_name(self) -> Seq<char> {
        match self {
            MetaListValidation::Format => "format"@,
            MetaListValidation::Enumerate => "enumerate"@,
            MetaListValidation::Custom => "custom"@,
        }
    }

    /// The name as it is written in a declaration.
    pub fn name(&self) -> (name: &'static str)
        ensures
            name@ == self.spec_name(),
    {
        match *self {
            MetaListValidation::Format => "format",
            MetaListValidation::Enumerate => "enumerate",
            MetaListValidation::Custom => "custom",
        }
    }

    /// The names of all, in declared order.
    pub fn iter() -> (all: Vec<Self>)
        ensures
            all@ == seq![
                MetaListValidation::Format,
                MetaListValidation::Enumerate,
                MetaListValidation::Custom,
            ],
    {
        let mut all: Vec<Self> = Vec::new();
        all.push(MetaListValidation::Format);
        all.push(MetaListValidation::Enumerate);
        all.push(MetaListValidation::Custom);
        assert(all@ =~= seq![
            MetaListValidation::Format,
            MetaListValidation::Enumerate,
            MetaListValidation::Custom,
        ]);
        all
    }

    /// The names of all as texts, in declared order.
    pub fn names() -> (all: Vec<&'static str>)
        ensures
            all@.map_values(|name: &str| name@) == seq!["format"@, "enumerate"@, "custom"@],
    {
        let mut all: Vec<&'static str> = Vec::new();
        all.push("format");
        all.push("enumerate");
        all.push("custom");
        assert(all@.map_values(|name: &str| name@) =~= seq!["format"@, "enumerate"@, "custom"@]);
        all
    }

    /// What a name stands for.
    pub open spec fn spec_from_str(s: Seq<char>) -> Option<Self> {
        if s == "format"@ {
            Some(MetaListValidation::Format)
        } else if s == "enumerate"@ {
            Some(MetaListValidation::Enumerate)
        } else if s == "custom"@ {
            Some(MetaListValidation::Custom)
        } else {
            None
        }
    }

    /// What a name stands for; an unknown name is handed back.
    pub fn from_str(s: &str) -> (found: Result<Self, String>)
        ensures
            match Self::spec_from_str(s@) {
                Some(known) => found == Ok::<Self, String>(known),
                None => found matches Err(unknown) && unknown@ == s@,
            },
    {
        if str_equal(s, "format") {
            Ok(MetaListValidation::Format)
        } else if str_equal(s, "enumerate") {
            Ok(MetaListValidation::Enumerate)
        } else if str_equal(s, "custom") {
            Ok(MetaListValidation::Custom)
        } else {
            Err(s.to_owned())
        }
    }
}

/// The validations that are declared as a name and a value: `minimum = 1` and the like.
#[derive(Clone, Copy, Debug, PartialEq, Eq, Structural)]
pub enum MetaNameValueValidation {
    Minimum,
    Maximum,
    ExclusiveMinimum,
    ExclusiveMaximum,
    MinLength,
    MaxLength,
    MinItems,
    MaxItems,
    MinProperties,
    MaxProperties,
    MultipleOf,
    Pattern,
}

impl MetaNameValueValidation {
    /// The name as it is written in a declaration.
    pub open spec fn spec_name(self) -> Seq<char> {
        match self {
            MetaNameValueValidation::Minimum => "minimum"@,
            MetaNameValueValidation::Maximum => "maximum"@,
            MetaNameValueValidation::ExclusiveMinimum => "exclusive_minimum"@,
            MetaNameValueValidation::ExclusiveMaximum => "exclusive_maximum"@,
            MetaNameValueValidation::MinLength => "min_length"@,
            MetaNameValueValidation::MaxLength => "max_length"@,
            MetaNameValueValidation::MinItems => "min_items"@,
            MetaNameValueValidation::MaxItems => "max_items"@,
            MetaNameValueValidation::MinProperties => "min_properties"@,
            MetaNameValueValidation::MaxProperties => "max_properties"@,
            MetaNameValueValidation::MultipleOf => "multiple_of"@,
            MetaNameValueValidation::Pattern => "pattern"@,
        }
    }

    /// The name as it is written in a declaration.
    pub fn name(&self) -> (name: &'static str)
        ensures
            name@ == self.spec_name(),
    {
        match *self {
            MetaNameValueValidation::Minimum => "minimum",
            MetaNameValueValidation::Maximum => "maximum",
            MetaNameValueValidation::ExclusiveMinimum => "exclusive_minimum",
            MetaNameValueValidation::ExclusiveMaximum => "exclusive_maximum",
            MetaNameValueValidation::MinLength => "min_length",
            MetaNameValueValidation::MaxLength => "max_length",
            MetaNameValueValidation::MinItems => "min_items",
            MetaNameValueValidation::MaxItems => "max_items",
            MetaNameValueValidation::MinProperties => "min_properties",
            MetaNameValueValidation::MaxProperties => "max_properties",
            MetaNameValueValidation::MultipleOf => "multiple_of",
            MetaNameValueValidation::Pattern => "pattern",
        }
    }

    /// The names of all, in declared order.
    pub fn iter() -> (all: Vec<Self>)
        ensures
            all@ == seq![
                MetaNameValueValidation::Minimum,
                MetaNameValueValidation::Maximum,
                MetaNameValueValidation::ExclusiveMinimum,
                MetaNameValueValidation::ExclusiveMaximum,
                MetaNameValueValidation::MinLength,
                MetaNameValueValidation::MaxLength,
                MetaNameValueValidation::MinItems,
                MetaNameValueValidation::MaxItems,
                MetaNameValueValidation::MinProperties,
                MetaNameValueValidation::MaxProperties,
                MetaNameValueValidation::MultipleOf,
                MetaNameValueValidation::Pattern,
            ],
    {
        let mut all: Vec<Self> = Vec::new();
        all.push(MetaNameValueValidation::Minimum);
        all.push(MetaNameValueValidation::Maximum);
        all.push(MetaNameValueValidation::ExclusiveMinimum);
        all.push(MetaNameValueValidation::ExclusiveMaximum);
        all.push(MetaNameValueValidation::MinLength);
        all.push(MetaNameValueValidation::MaxLength);
        all.push(MetaNameValueValidation::MinItems);
        all.push(MetaNameValueValidation::MaxItems);
        all.push(MetaNameValueValidation::MinProperties);
        all.push(MetaNameValueValidation::MaxProperties);
        all.push(MetaNameValueValidation::MultipleOf);
        all.push(MetaNameValueValidation::Pattern);
        assert(all@ =~= seq![
            MetaNameValueValidation::Minimum,
            MetaNameValueValidation::Maximum,
            MetaNameValueValidation::ExclusiveMinimum,
            MetaNameValueValidation::ExclusiveMaximum,
            MetaNameValueValidation::MinLength,
            MetaNameValueValidation::MaxLength,
            MetaNameValueValidation::MinItems,
            MetaNameValueValidation::MaxItems,
            MetaNameValueValidation::MinProperties,
            MetaNameValueValidation::MaxProperties,
            MetaNameValueValidation::MultipleOf,
            MetaNameValueValidation::Pattern,
        ]);
        all
    }

    /// The names of all as texts, in declared order.
    pub fn names() -> (all: Vec<&'static str>)
        ensures
            all@.map_values(|name: &str| name@) == seq![
                "minimum"@,
                "maximum"@,
                "exclusive_minimum"@,
                "exclusive_maximum"@,
                "min_length"@,
                "max_length"@,
                "min_items"@,
                "max_items"@,
                "min_properties"@,
                "max_properties"@,
                "multiple_of"@,
                "pattern"@,
            ],
    {
        let mut all: Vec<&'static str> = Vec::new();
        all.push("minimum");
        all.push("maximum");
        all.push("exclusive_minimum");
        all.push("exclusive_maximum");
        all.push("min_length");
        all.push("max_length");
        all.push("min_items");
        all.push("max_items");
        all.push("min_properties");
        all.push("max_properties");
        all.push("multiple_of");
        all.push("pattern");
        assert(all@.map_values(|name: &str| name@) =~= seq![
            "minimum"@,
            "maximum"@,
            "exclusive_minimum"@,
            "exclusive_maximum"@,
            "min_length"@,
            "max_length"@,
            "min_items"@,
            "max_items"@,
            "min_properties"@,
            "max_properties"@,
            "multiple_of"@,
            "pattern"@,
        ]);
        all
    }

    /// What a name stands for.
    pub open spec fn spec_from_str(s: Seq<char>) -> Option<Self> {
        if s == "minimum"@ {
            Some(MetaNameValueValidation::Minimum)
        } else if s == "maximum"@ {
            Some(MetaNameValueValidation::Maximum)
        } else if s == "exclusive_minimum"@ {
            Some(MetaNameValueValidation::ExclusiveMinimum)
        } else if s == "exclusive_maximum"@ {
            Some(MetaNameValueValidation::ExclusiveMaximum)
        } else if s == "min_length"@ {
            Some(MetaNameValueValidation::MinLength)
        } else if s == "max_length"@ {
            Some(MetaNameValueValidation::MaxLength)
        } else if s == "min_items"@ {
            Some(MetaNameValueValidation::MinItems)
        } else if s == "max_items"@ {
            Some(MetaNameValueValidation::MaxItems)
        } else if s == "min_properties"@ {
            Some(MetaNameValueValidation::MinProperties)
        } else if s == "max_properties"@ {
            Some(MetaNameValueValidation::MaxProperties)
        } else if s == "multiple_of"@ {
            Some(MetaNameValueValidation::MultipleOf)
        } else if s == "pattern"@ {
            Some(MetaNameValueValidation::Pattern)
        } else {
            None
        }
    }

    /// What a name stands for; an unknown name is handed back.
    pub fn from_str(s: &str) -> (found: Result<Self, String>)
        ensures
            match Self::spec_from_str(s@) {
                Some(known) => found == Ok::<Self, String>(known),
                None => found matches Err(unknown) && unknown@ == s@,
            },
    {
        if str_equal(s, "minimum") {
            Ok(MetaNameValueValidation::Minimum)
        } else if str_equal(s, "maximum") {
            Ok(MetaNameValueValidation::Maximum)
        } else if str_equal(s, "exclusive_minimum") {
            Ok(MetaNameValueValidation::ExclusiveMinimum)
        } else if str_equal(s, "exclusive_maximum") {
            Ok(MetaNameValueValidation::ExclusiveMaximum)
        } else if str_equal(s, "min_length") {
            Ok(MetaNameValueValidation::MinLength)
        } else if str_equal(s, "max_length") {
            Ok(MetaNameValueValidation::MaxLength)
        } else if str_equal(s, "min_items") {
            Ok(MetaNameValueValidation::MinItems)
        } else if str_equal(s, "max_items") {
            Ok(MetaNameValueValidation::MaxItems)
        } else if str_equal(s, "min_properties") {
            Ok(MetaNameValueValidation::MinProperties)
        } else if str_equal(s, "max_properties") {
            Ok(MetaNameValueValidation::MaxProperties)
        } else if str_equal(s, "multiple_of") {
            Ok(MetaNameValueValidation::MultipleOf)
        } else if str_equal(s, "pattern") {
            Ok(MetaNameValueValidation::Pattern)
        } else {
            Err(s.to_owned())
        }
    }
}

/// The validations that are declared as a bare name.
#[derive(Clone, Copy, Debug, PartialEq, Eq, Structural)]
pub enum MetaPathValidation {
    UniqueItems,
}

impl MetaPathValidation {
    /// The name as it is written in a declaration.
    pub open spec fn spec_name(self) -> Seq<char> {
        match self {
            MetaPathValidation::UniqueItems => "unique_items"@,
        }
    }

    /// The name as it is written in a declaration.
    pub fn name(&self) -> (name: &'static str)
        ensures
            name@ == self.spec_name(),
    {
        match *self {
            MetaPathValidation::UniqueItems => "unique_items",
        }
    }

    /// The names of all, in declared order.
    pub fn iter() -> (all: Vec<Self>)
        ensures
            all@ == seq![MetaPathValidation::UniqueItems],
    {
        let mut all: Vec<Self> = Vec::new();
        all.push(MetaPathValidation::UniqueItems);
        assert(all@ =~= seq![MetaPathValidation::UniqueItems]);
        all
    }

    /// The names of all as texts, in declared order.
    pub fn names() -> (all: Vec<&'static str>)
        ensures
            all@.map_values(|name: &str| name@) == seq!["unique_items"@],
    {
        let mut all: Vec<&'static str> = Vec::new();
        all.push("unique_items");
        assert(all@.map_values(|name: &str| name@) =~= seq!["unique_items"@]);
        all
    }

    /// What a name stands for.
    pub open spec fn spec_from_str(s: Seq<char>) -> Option<Self> {
        if s == "unique_items"@ {
            Some(MetaPathValidation::UniqueItems)
        } else {
            None
        }
    }

    /// What a name stands for; an unknown name is handed back.
    pub fn from_str(s: &str) -> (found: Result<Self, String>)
        ensures
            match Self::spec_from_str(s@) {
                Some(known) => found == Ok::<Self, String>(known),
                None => found matches Err(unknown) && unknown@ == s@,
            },
    {
        if str_equal(s, "unique_items") {
            Ok(MetaPathValidation::UniqueItems)
        } else {
            Err(s.to_owned())
        }
    }
}

/// The message declarations that are a list: `message_fn(..)`.
#[derive(Clone, Copy, Debug, PartialEq, Eq, Structural)]
pub enum MetaListMessage {
    MessageFn,
}

impl MetaListMessage {
    /// The name as it is written in a declaration.
    pub open spec fn spec_name(self) -> Seq<char> {
        match self {
            MetaListMessage::MessageFn => "message_fn"@,
        }
    }

    /// The name as it is written in a declaration.
    pub fn name(&self) -> (name: &'static str)
        ensures
            name@ == self.spec_name(),
    {
        match *self {
            MetaListMessage::MessageFn => "message_fn",
        }
    }

    /// The names of all, in declared order.
    pub fn iter() -> (all: Vec<Self>)
        ensures
            all@ == seq![MetaListMessage::MessageFn],
    {
        let mut all: Vec<Self> = Vec::new();
        all.push(MetaListMessage::MessageFn);
        assert(all@ =~= seq![MetaListMessage::MessageFn]);
        all
    }

    /// The names of all as texts, in declared order.
    pub fn names() -> (all: Vec<&'static str>)
        ensures
            all@.map_values(|name: &str| name@) == seq!["message_fn"@],
    {
        let mut all: Vec<&'static str> = Vec::new();
        all.push("message_fn");
        assert(all@.map_values(|name: &str| name@) =~= seq!["message_fn"@]);
        all
    }

    /// What a name stands for.
    pub open spec fn spec_from_str(s: Seq<char>) -> Option<Self> {
        if s == "message_fn"@ {
            Some(MetaListMessage::MessageFn)
        } else {
            None
        }
    }

    /// What a name stands for; an unknown name is handed back.
    pub fn from_str(s: &str) -> (found: Result<Self, String>)
        ensures
            match Self::spec_from_str(s@) {
                Some(known) => found == Ok::<Self, String>(known),
                None => found matches Err(unknown) && unknown@ == s@,
            },
    {
        if str_equal(s, "message_fn") {
            Ok(MetaListMessage::MessageFn)
        } else {
            Err(s.to_owned())
        }
    }
}

/// The message declarations that are a name and a value: `message = ".."`.
#[derive(Clone, Copy, Debug, PartialEq, Eq, Structural)]
pub enum MetaNameValueMessage {
    Message,
}

impl MetaNameValueMessage {
    /// The name as it is written in a declaration.
    pub open spec fn spec_name(self) -> Seq<char> {
        match self {
            MetaNameValueMessage::Message => "message"@,
        }
    }

    /// The name as it is written in a declaration.
    pub fn name(&self) -> (name: &'static str)
        ensures
            name@ == self.spec_name(),
    {
        match *self {
            MetaNameValueMessage::Message => "message",
        }
    }

    /// The names of all, in declared order.
    pub fn iter() -> (all: Vec<Self>)
        ensures
            all@ == seq![MetaNameValueMessage::Message],
    {
        let mut all: Vec<Self> = Vec::new();
        all.push(MetaNameValueMessage::Message);
        assert(all@ =~= seq![MetaNameValueMessage::Message]);
        all
    }

    /// The names of all as texts, in declared order.
    pub fn names() -> (all: Vec<&'static str>)
        ensures
            all@.map_values(|name: &str| name@) == seq!["message"@],
    {
        let mut all: Vec<&'static str> = Vec::new();
        all.push("message");
        assert(all@.map_values(|name: &str| name@) =~= seq!["message"@]);
        all
    }

    /// What a name stands for.
    pub open spec fn spec_from_str(s: Seq<char>) -> Option<Self> {
        if s == "message"@ {
            Some(MetaNameValueMessage::Message)
        } else {
            None
        }
    }

    /// What a name stands for; an unknown name is handed back.
    pub fn from_str(s: &str) -> (found: Result<Self, String>)
        ensures
            match Self::spec_from_str(s@) {
                Some(known) => found == Ok::<Self, String>(known),
                None => found matches Err(unknown) && unknown@ == s@,
            },
    {
        if str_equal(s, "message") {
            Ok(MetaNameValueMessage::Message)
        } else {
            Err(s.to_owned())
        }
    }
}

} // verus!
