use super::error::{
    ArrayErrors, ArrayErrorsView, Error, ErrorView, Errors, ErrorsView, MapErrors, ObjectErrors,
    ObjectErrorsView, VecErrors,
};
use crate::error::number::decimal;
use crate::error::{Message, Number};
use crate::json::{Json, JsonView};
use vstd::prelude::*;
use vstd::string::StringExecFns;

verus! {

/// The JSON shape of one error: the rendered text of a message or a custom text, and for an
/// aggregate the shape of the aggregate.
pub open spec fn error_json(error: ErrorView) -> JsonView
    decreases error, 0nat,
{
    match error {
        ErrorView::Message { failure, text } => JsonView::Text(text),
        ErrorView::Custom(text) => JsonView::Text(text),
        ErrorView::Items(array) => array_json(array),
        ErrorView::Properties(object) => object_json(object),
    }
}

/// The shapes of the errors of a list, in their order.
pub open spec fn list_json_items(list: Seq<ErrorView>) -> Seq<JsonView>
    decreases list, 0nat,
{
    Seq::new(
        list.len(),
        |i: int|
            if 0 <= i < list.len() {
                error_json(list[i])
            } else {
                arbitrary()
            },
    )
}

/// The JSON shape of a list of errors: an array of the shapes of its errors.
pub open spec fn list_json(list: Seq<ErrorView>) -> JsonView
    decreases list, 1nat,
{
    JsonView::Array(list_json_items(list))
}

/// The member that holds the errors of a value as a whole: none where there are no such errors.
pub open spec fn whole_member(name: Seq<char>, list: Seq<ErrorView>) -> Seq<(Seq<char>, JsonView)>
    decreases list, 2nat,
{
    if list.len() == 0 {
        Seq::empty()
    } else {
        seq![(name, list_json(list))]
    }
}

/// One member for each element that has errors: the index in decimal, and the shape of the
/// element's result.
pub open spec fn items_members(items: Seq<(nat, ErrorsView)>) -> Seq<(Seq<char>, JsonView)>
    decreases items, 0nat,
{
    Seq::new(
        items.len(),
        |i: int|
            if 0 <= i < items.len() {
                (decimal(items[i].0 as int), errors_json(items[i].1))
            } else {
                arbitrary()
            },
    )
}

/// One member for each field that has errors: the name of the field, and its list of errors.
pub open spec fn properties_members(properties: Seq<(Seq<char>, Seq<ErrorView>)>) -> Seq<
    (Seq<char>, JsonView),
>
    decreases properties, 0nat,
{
    Seq::new(
        properties.len(),
        |i: int|
            if 0 <= i < properties.len() {
                (properties[i].0, list_json(properties[i].1))
            } else {
                arbitrary()
            },
    )
}

/// The JSON shape of the errors of a sequence: an object with the errors of the sequence itself
/// under `items`, where there are any, followed by one member for each element that has errors.
pub open spec fn array_json(array: ArrayErrorsView) -> JsonView
    decreases array, 0nat,
{
    JsonView::Object(whole_member("items"@, array.errors) + items_members(array.items))
}

/// The JSON shape of the errors of a struct: an object with one member for each field that has
/// errors, followed by the errors of the struct as a whole under `errors`, where there are any.
pub open spec fn object_json(object: ObjectErrorsView) -> JsonView
    decreases object, 0nat,
{
    JsonView::Object(
        properties_members(object.properties) + whole_member("errors"@, object.errors),
    )
}

/// The JSON shape of a validation result. A bare list is an object with the list under `errors`.
pub open spec fn errors_json(errors: ErrorsView) -> JsonView
    decreases errors, 0nat,
{
    match errors {
        ErrorsView::Array(array) => array_json(array),
        ErrorsView::Object(object) => object_json(object),
        ErrorsView::NewType(list) => JsonView::Object(seq![("errors"@, list_json(list))]),
    }
}

/// The JSON shape of a message: its rendered text as a string.
pub fn serialize_error_message(message: &str) -> (json: Json)
    ensures
        json@ == JsonView::Text(message@),
{
    Json::Text(String::from_str(message))
}

impl Error {
    /// The text of a message or of a custom error; `None` for an aggregate.
    pub fn message(&self) -> (text: Option<&str>)
        ensures
            match self@ {
                ErrorView::Message { failure, text: rendered } => text matches Some(t) && t@
                    == rendered,
                ErrorView::Custom(custom) => text matches Some(t) && t@ == custom,
                _ => text is None,
            },
    {
        match self {
            Error::Minimum(m) => Some(m.text()),
            Error::Maximum(m) => Some(m.text()),
            Error::ExclusiveMinimum(m) => Some(m.text()),
            Error::ExclusiveMaximum(m) => Some(m.text()),
            Error::MultipleOf(m) => Some(m.text()),
            Error::MinLength(m) => Some(m.text()),
            Error::MaxLength(m) => Some(m.text()),
            Error::Pattern(m) => Some(m.text()),
            Error::Format(m) => Some(m.text()),
            Error::MinItems(m) => Some(m.text()),
            Error::MaxItems(m) => Some(m.text()),
            Error::UniqueItems(m) => Some(m.text()),
            Error::MinProperties(m) => Some(m.text()),
            Error::MaxProperties(m) => Some(m.text()),
            Error::Enumerate(m) => Some(m.text()),
            Error::Custom(text) => Some(text.as_str()),
            Error::Items(_) => None,
            Error::Properties(_) => None,
        }
    }

    /// The error with `text` in place of its rendered text. An aggregate has no text of its own
    /// and stays as it is.
    pub fn with_text(self, text: String) -> (error: Error)
        ensures
            error@ == match self@ {
                ErrorView::Message { failure, text: _ } => ErrorView::Message {
                    failure,
                    text: text@,
                },
                ErrorView::Custom(_) => ErrorView::Custom(text@),
                other => other,
            },
    {
        match self {
            Error::Minimum(m) => Error::Minimum(Message { error: m.error, text }),
            Error::Maximum(m) => Error::Maximum(Message { error: m.error, text }),
            Error::ExclusiveMinimum(m) => Error::ExclusiveMinimum(Message { error: m.error, text }),
            Error::ExclusiveMaximum(m) => Error::ExclusiveMaximum(Message { error: m.error, text }),
            Error::MultipleOf(m) => Error::MultipleOf(Message { error: m.error, text }),
            Error::MinLength(m) => Error::MinLength(Message { error: m.error, text }),
            Error::MaxLength(m) => Error::MaxLength(Message { error: m.error, text }),
            Error::Pattern(m) => Error::Pattern(Message { error: m.error, text }),
            Error::Format(m) => Error::Format(Message { error: m.error, text }),
            Error::MinItems(m) => Error::MinItems(Message { error: m.error, text }),
            Error::MaxItems(m) => Error::MaxItems(Message { error: m.error, text }),
            Error::UniqueItems(m) => Error::UniqueItems(Message { error: m.error, text }),
            Error::MinProperties(m) => Error::MinProperties(Message { error: m.error, text }),
            Error::MaxProperties(m) => Error::MaxProperties(Message { error: m.error, text }),
            Error::Enumerate(m) => Error::Enumerate(Message { error: m.error, text }),
            Error::Custom(_) => Error::Custom(text),
            Error::Items(array) => Error::Items(array),
            Error::Properties(object) => Error::Properties(object),
        }
    }

    /// The JSON shape of the error.
    pub fn to_json(&self) -> (json: Json)
        ensures
            json@ == error_json(self@),
        decreases self, 0nat,
    {
        match self {
            Error::Items(array) => array.to_json(),
            Error::Properties(object) => object.to_json(),
            _ => {
                match self.message() {
                    Some(text) => serialize_error_message(text),
                    None => Json::Text(String::new()),
                }
            },
        }
    }
}

/// The JSON shape of a list of errors.
pub fn list_to_json(list: &VecErrors) -> (json: Json)
    ensures
        json@ == list_json(super::error::vec_errors_view(*list)),
    decreases list, 0nat,
{
    let mut items: Vec<Json> = Vec::new();
    let ghost views = super::error::vec_errors_view(*list);
    let mut i: usize = 0;
    while i < list.len()
        invariant
            i <= list@.len(),
            views == super::error::vec_errors_view(*list),
            crate::json::values_view(items) == list_json_items(views).take(i as int),
        decreases list@.len() - i,
    {
        let ghost before = items;
        proof {
            assert(decreases_to!(*list => list@[i as int]));
        }
        let json: Json = list[i].to_json();
        items.push(json);
        proof {
            assert(views[i as int] == list@[i as int]@);
            assert(crate::json::values_view(items) =~= crate::json::values_view(before).push(
                json@,
            ));
            assert(crate::json::values_view(items) =~= list_json_items(views).take(i + 1));
        }
        i = i + 1;
    }
    proof {
        assert(list_json_items(views).take(i as int) =~= list_json_items(views));
    }
    Json::Array(items)
}

/// Adds the member of the errors of a value as a whole, where there are any.
fn push_whole_member(members: &mut Vec<(String, Json)>, name: &str, list: &VecErrors)
    ensures
        crate::json::members_view(*final(members)) == crate::json::members_view(*old(members))
            + whole_member(name@, super::error::vec_errors_view(*list)),
    decreases list, 1nat,
{
    let ghost before = *members;
    if list.len() > 0 {
        let json: Json = list_to_json(list);
        members.push((String::from_str(name), json));
        proof {
            assert(crate::json::members_view(*members) =~= crate::json::members_view(before)
                + whole_member(name@, super::error::vec_errors_view(*list)));
        }
    } else {
        proof {
            assert(crate::json::members_view(*members) =~= crate::json::members_view(before)
                + whole_member(name@, super::error::vec_errors_view(*list)));
        }
    }
}

impl ArrayErrors {
    /// The JSON shape of the errors of a sequence.
    pub fn to_json(&self) -> (json: Json)
        ensures
            json@ == array_json(self@),
        decreases self, 0nat,
    {
        let mut members: Vec<(String, Json)> = Vec::new();
        push_whole_member(&mut members, "items", &self.errors);
        let ghost head = crate::json::members_view(members);
        let ghost views = super::error::items_view(self.items);
        let mut i: usize = 0;
        while i < self.items.len()
            invariant
                i <= self.items@.len(),
                views == super::error::items_view(self.items),
                head == whole_member("items"@, super::error::vec_errors_view(self.errors)),
                crate::json::members_view(members) == head + items_members(views).take(i as int),
            decreases self.items@.len() - i,
        {
            let ghost before = members;
            proof {
                assert(decreases_to!(self.items => self.items@[i as int]));
            }
            let name: String = Number::Usize(self.items[i].0).to_text();
            let json: Json = self.items[i].1.to_json();
            members.push((name, json));
            proof {
                assert(views[i as int] == (
                    self.items@[i as int].0 as nat,
                    self.items@[i as int].1@,
                ));
                assert(crate::json::members_view(members) =~= crate::json::members_view(
                    before,
                ).push((name@, json@)));
                assert(crate::json::members_view(members) =~= head + items_members(views).take(
                    i + 1,
                ));
            }
            i = i + 1;
        }
        proof {
            assert(items_members(views).take(i as int) =~= items_members(views));
        }
        Json::Object(members)
    }
}

impl MapErrors {
    /// Adds one member for each field that has errors.
    pub fn push_members(&self, members: &mut Vec<(String, Json)>)
        ensures
            crate::json::members_view(*final(members)) == crate::json::members_view(*old(members))
                + properties_members(self@),
        decreases self, 0nat,
    {
        let ghost head = crate::json::members_view(*members);
        let ghost views = self@;
        let mut i: usize = 0;
        proof {
            assert(crate::json::members_view(*members) =~= head + properties_members(views).take(
                0,
            ));
        }
        while i < self.entries.len()
            invariant
                i <= self.entries@.len(),
                views == self@,
                crate::json::members_view(*members) == head + properties_members(views).take(
                    i as int,
                ),
            decreases self.entries@.len() - i,
        {
            let ghost before = *members;
            proof {
                assert(decreases_to!(self.entries => self.entries@[i as int]));
            }
            let name: String = String::from_str(self.entries[i].0);
            let json: Json = list_to_json(&self.entries[i].1);
            members.push((name, json));
            proof {
                assert(views[i as int] == (
                    self.entries@[i as int].0@,
                    super::error::vec_errors_view(self.entries@[i as int].1),
                ));
                assert(crate::json::members_view(*members) =~= crate::json::members_view(
                    before,
                ).push((name@, json@)));
                assert(crate::json::members_view(*members) =~= head + properties_members(
                    views,
                ).take(i + 1));
            }
            i = i + 1;
        }
        proof {
            assert(properties_members(views).take(i as int) =~= properties_members(views));
        }
    }

    /// The JSON shape of the errors of the fields: an object with one member for each field
    /// that has errors.
    pub fn to_json(&self) -> (json: Json)
        ensures
            json@ == JsonView::Object(properties_members(self@)),
    {
        let mut members: Vec<(String, Json)> = Vec::new();
        self.push_members(&mut members);
        proof {
            assert(crate::json::members_view(members) =~= properties_members(self@));
        }
        Json::Object(members)
    }
}

impl ObjectErrors {
    /// The JSON shape of the errors of a struct.
    pub fn to_json(&self) -> (json: Json)
        ensures
            json@ == object_json(self@),
        decreases self, 0nat,
    {
        let mut members: Vec<(String, Json)> = Vec::new();
        self.properties.push_members(&mut members);
        push_whole_member(&mut members, "errors", &self.errors);
        proof {
            assert(crate::json::members_view(members) =~= properties_members(self.properties@)
                + whole_member("errors"@, super::error::vec_errors_view(self.errors)));
        }
        Json::Object(members)
    }
}

impl Errors {
    /// The JSON shape of the validation result.
    pub fn to_json(&self) -> (json: Json)
        ensures
            json@ == errors_json(self@),
        decreases self, 0nat,
    {
        match self {
            Errors::Array(array) => array.to_json(),
            Errors::Object(object) => object.to_json(),
            Errors::NewType(list) => {
                let mut members: Vec<(String, Json)> = Vec::new();
                let json: Json = list_to_json(list);
                members.push((String::from_str("errors"), json));
                proof {
                    assert(crate::json::members_view(members) =~= seq![
                        ("errors"@, list_json(super::error::vec_errors_view(*list))),
                    ]);
                }
                Json::Object(members)
            },
        }
    }

    /// The validation result as compact JSON text.
    pub fn to_text(&self) -> (text: String)
        ensures
            text@ == crate::json::json_text(errors_json(self@)),
    {
        self.to_json().to_text()
    }
}

} // verus!
