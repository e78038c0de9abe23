use vstd::prelude::*;
use vstd::string::StringExecFns;

verus! {

/// A JSON value of the kinds that an error report is made of: texts, arrays, and objects whose
/// members keep their order.
#[derive(Debug)]
pub enum Json {
    Text(String),
    Array(Vec<Json>),
    Object(Vec<(String, Json)>),
}

/// A [`Json`] value as contracts see it.
pub enum JsonView {
    Text(Seq<char>),
    Array(Seq<JsonView>),
    Object(Seq<(Seq<char>, JsonView)>),
}

pub open spec fn json_view(json: Json) -> JsonView
    decreases json,
{
    match json {
        Json::Text(text) => JsonView::Text(text@),
        Json::Array(items) => JsonView::Array(values_view(items)),
        Json::Object(members) => JsonView::Object(members_view(members)),
    }
}

pub open spec fn values_view(items: Vec<Json>) -> Seq<JsonView>
    decreases items,
{
    Seq::new(
        items@.len(),
        |i: int|
            if 0 <= i < items@.len() {
                json_view(items@[i])
            } else {
                arbitrary()
            },
    )
}

pub open spec fn members_view(members: Vec<(String, Json)>) -> Seq<(Seq<char>, JsonView)>
    decreases members,
{
    Seq::new(
        members@.len(),
        |i: int|
            if 0 <= i < members@.len() {
                (members@[i].0@, json_view(members@[i].1))
            } else {
                arbitrary()
            },
    )
}

impl View for Json {
    type V = JsonView;

    open spec fn view(&self) -> JsonView {
        json_view(*self)
    }
}

/// The digit that stands for a number below sixteen in an escape, in lower case.
pub open spec fn hex_digit(n: nat) -> char {
    if n == 0 {
        '0'
    } else if n == 1 {
        '1'
    } else if n == 2 {
        '2'
    } else if n == 3 {
        '3'
    } else if n == 4 {
        '4'
    } else if n == 5 {
        '5'
    } else if n == 6 {
        '6'
    } else if n == 7 {
        '7'
    } else if n == 8 {
        '8'
    } else if n == 9 {
        '9'
    } else if n == 10 {
        'a'
    } else if n == 11 {
        'b'
    } else if n == 12 {
        'c'
    } else if n == 13 {
        'd'
    } else if n == 14 {
        'e'
    } else {
        'f'
    }
}

/// Whether a character is written as an escape inside a JSON string literal: the double quote,
/// the backslash, and the control characters below the space.
pub open spec fn is_escaped(c: char) -> bool {
    c == '"' || c == '\\' || (c as u32) < 0x20
}

/// How one character is written inside a JSON string literal: the double quote and the
/// backslash after a backslash, backspace, tab, line feed, form feed and carriage return as a
/// backslash and a letter, every other control character below the space as `\u00` and two
/// digits, and every other character as it is.
pub open spec fn json_escaped(c: char) -> Seq<char> {
    if c == '"' {
        seq!['\\', '"']
    } else if c == '\\' {
        seq!['\\', '\\']
    } else if c == '\u{8}' {
        seq!['\\', 'b']
    } else if c == '\t' {
        seq!['\\', 't']
    } else if c == '\n' {
        seq!['\\', 'n']
    } else if c == '\u{c}' {
        seq!['\\', 'f']
    } else if c == '\r' {
        seq!['\\', 'r']
    } else if (c as u32) < 0x20 {
        seq![
            '\\',
            'u',
            '0',
            '0',
            hex_digit((c as u32 / 16) as nat),
            hex_digit((c as u32 % 16) as nat),
        ]
    } else {
        seq![c]
    }
}

/// The first `n` characters of `text` as they are written inside a JSON string literal.
pub open spec fn json_escaped_text(text: Seq<char>, n: nat) -> Seq<char>
    decreases n,
{
    if n == 0 || n > text.len() {
        Seq::empty()
    } else {
        json_escaped_text(text, (n - 1) as nat) + json_escaped(text[n - 1])
    }
}

/// The JSON string literal that stands for `text`: the text between double quotes, with the
/// characters that JSON cannot hold as they are written as escapes.
pub open spec fn json_quoted(text: Seq<char>) -> Seq<char> {
    seq!['"'] + json_escaped_text(text, text.len()) + seq!['"']
}

/// A text that holds no character to escape is quoted as it is.
pub proof fn lemma_quoted_as_it_is(text: Seq<char>)
    requires
        forall|i: int| 0 <= i < text.len() ==> !is_escaped(#[trigger] text[i]),
    ensures
        json_quoted(text) == seq!['"'] + text + seq!['"'],
{
    lemma_escaped_as_it_is(text, text.len());
    assert(text.take(text.len() as int) =~= text);
}

proof fn lemma_escaped_as_it_is(text: Seq<char>, n: nat)
    requires
        n <= text.len(),
        forall|i: int| 0 <= i < text.len() ==> !is_escaped(#[trigger] text[i]),
    ensures
        json_escaped_text(text, n) == text.take(n as int),
    decreases n,
{
    if n == 0 {
        assert(json_escaped_text(text, n) =~= text.take(n as int));
    } else {
        lemma_escaped_as_it_is(text, (n - 1) as nat);
        assert(!is_escaped(text[n - 1]));
        assert(text.take(n as int) =~= text.take(n - 1) + seq![text[n - 1]]);
    }
}

/// `serde_json`'s rendering of a string value (`Display` of `serde_json::Value::String`): the
/// JSON string literal for `text`, in the compact form, which escapes the double quote, the
/// backslash and the control characters below the space and writes every other character as
/// it is.
#[verifier::external_body]
fn quote(text: &str) -> (quoted: String)
    ensures
        quoted@ == json_quoted(text@),
{
    serde_json::Value::String(text.to_owned()).to_string()
}

/// The compact JSON text of a value: no space between tokens, members in their order.
pub open spec fn json_text(json: JsonView) -> Seq<char>
    decreases json, 0nat,
{
    match json {
        JsonView::Text(text) => json_quoted(text),
        JsonView::Array(items) => "["@ + values_text(items, items.len()) + "]"@,
        JsonView::Object(members) => "{"@ + members_text(members, members.len()) + "}"@,
    }
}

/// The texts of the first `n` values, separated by commas.
pub open spec fn values_text(items: Seq<JsonView>, n: nat) -> Seq<char>
    decreases items, n,
{
    if n == 0 || n > items.len() {
        Seq::empty()
    } else if n == 1 {
        json_text(items[0])
    } else {
        values_text(items, (n - 1) as nat) + ","@ + json_text(items[n - 1])
    }
}

/// The text of one member: the quoted name, a colon, the text of the value.
pub open spec fn member_text(name: Seq<char>, value: JsonView) -> Seq<char>
    decreases value, 1nat,
{
    json_quoted(name) + ":"@ + json_text(value)
}

/// The texts of the first `n` members, separated by commas.
pub open spec fn members_text(members: Seq<(Seq<char>, JsonView)>, n: nat) -> Seq<char>
    decreases members, n,
{
    if n == 0 || n > members.len() {
        Seq::empty()
    } else if n == 1 {
        member_text(members[0].0, members[0].1)
    } else {
        members_text(members, (n - 1) as nat) + ","@ + member_text(
            members[n - 1].0,
            members[n - 1].1,
        )
    }
}

impl Json {
    /// Appends the compact JSON text of the value to `out`.
    pub fn write(&self, out: &mut String)
        ensures
            final(out)@ == old(out)@ + json_text(self@),
        decreases self,
    {
        match self {
            Json::Text(text) => {
                let quoted: String = quote(text.as_str());
                out.append(quoted.as_str());
            },
            Json::Array(items) => {
                out.append("[");
                let ghost start = out@;
                let ghost views = values_view(*items);
                let mut i: usize = 0;
                while i < items.len()
                    invariant
                        i <= items@.len(),
                        views == values_view(*items),
                        out@ == start + values_text(views, i as nat),
                        *self is Array,
                        self->Array_0 == *items,
                    decreases items@.len() - i,
                {
                    if i > 0 {
                        out.append(",");
                    }
                    proof {
                        assert(decreases_to!(*items => items@[i as int]));
                    }
                    items[i].write(out);
                    i = i + 1;
                    proof {
                        assert(views[i - 1] == json_view(items@[i - 1]));
                        assert(out@ =~= start + values_text(views, i as nat));
                    }
                }
                out.append("]");
                proof {
                    assert(final(out)@ =~= old(out)@ + json_text(self@));
                }
            },
            Json::Object(members) => {
                out.append("{");
                let ghost start = out@;
                let ghost views = members_view(*members);
                let mut i: usize = 0;
                while i < members.len()
                    invariant
                        i <= members@.len(),
                        views == members_view(*members),
                        out@ == start + members_text(views, i as nat),
                        *self is Object,
                        self->Object_0 == *members,
                    decreases members@.len() - i,
                {
                    if i > 0 {
                        out.append(",");
                    }
                    let ghost before = out@;
                    let name: String = quote(members[i].0.as_str());
                    out.append(name.as_str());
                    out.append(":");
                    proof {
                        assert(decreases_to!(*members => members@[i as int]));
                    }
                    members[i].1.write(out);
                    i = i + 1;
                    proof {
                        assert(views[i - 1] == (members@[i - 1].0@, json_view(members@[i - 1].1)));
                        assert(out@ =~= before + member_text(views[i - 1].0, views[i - 1].1));
                        assert(out@ =~= start + members_text(views, i as nat));
                    }
                }
                out.append("}");
                proof {
                    assert(final(out)@ =~= old(out)@ + json_text(self@));
                }
            },
        }
    }

    /// The compact JSON text of the value.
    pub fn to_text(&self) -> (text: String)
        ensures
            text@ == json_text(self@),
    {
        let mut text: String = String::new();
        self.write(&mut text);
        proof {
            assert(text@ =~= json_text(self@));
        }
        text
    }
}

} // verus!
