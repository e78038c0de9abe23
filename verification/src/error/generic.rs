use super::number::{decimal, Number};
use super::{compose, Failure, ToDefaultMessage};
use vstd::prelude::*;
use vstd::string::StringExecFns;

verus! {

/// One candidate value of an `enumerate` constraint.
#[derive(Debug, Clone)]
pub enum Literal {
    Bool(bool),
    Number(Number),
    Str(String),
    Char(char),
    Null,
}

/// A candidate value as contracts see it.
pub enum LiteralView {
    Bool(bool),
    Number(Number),
    Str(Seq<char>),
    Char(char),
    Null,
}

impl View for Literal {
    type V = LiteralView;

    open spec fn view(&self) -> LiteralView {
        match self {
            Literal::Bool(b) => LiteralView::Bool(*b),
            Literal::Number(n) => LiteralView::Number(*n),
            Literal::Str(s) => LiteralView::Str(s@),
            Literal::Char(c) => LiteralView::Char(*c),
            Literal::Null => LiteralView::Null,
        }
    }
}

/// How one candidate value is written in a message.
pub open spec fn literal_text(literal: LiteralView) -> Seq<char> {
    match literal {
        LiteralView::Bool(b) => if b {
            "true"@
        } else {
            "false"@
        },
        LiteralView::Number(n) => decimal(n.value()),
        LiteralView::Str(s) => "\""@ + s + "\""@,
        LiteralView::Char(c) => "'"@ + seq![c] + "'"@,
        LiteralView::Null => "null"@,
    }
}

/// The candidate values written one after another, separated by a comma and a space.
pub open spec fn literals_text(items: Seq<LiteralView>) -> Seq<char>
    decreases items.len(),
{
    if items.len() == 0 {
        Seq::empty()
    } else if items.len() == 1 {
        literal_text(items[0])
    } else {
        literals_text(items.drop_last()) + ", "@ + literal_text(items.last())
    }
}

/// The views of a list of candidate values.
pub open spec fn literal_views(items: Seq<Literal>) -> Seq<LiteralView> {
    items.map_values(|l: Literal| l@)
}

impl Literal {
    /// Appends the literal, as a message shows it, to `out`.
    pub fn push_text(&self, out: &mut String)
        ensures
            final(out)@ == old(out)@ + literal_text(self@),
    {
        match self {
            Literal::Bool(b) => {
                if *b {
                    out.append("true");
                } else {
                    out.append("false");
                }
            },
            Literal::Number(n) => {
                let text: String = n.to_text();
                out.append(text.as_str());
            },
            Literal::Str(s) => {
                out.append("\"");
                out.append(s.as_str());
                out.append("\"");
                assert(final(out)@ =~= old(out)@ + literal_text(self@));
            },
            Literal::Char(c) => {
                out.append("'");
                push_char(out, *c);
                out.append("'");
                assert(final(out)@ =~= old(out)@ + literal_text(self@));
            },
            Literal::Null => {
                out.append("null");
            },
        }
    }
}

fn push_char(out: &mut String, c: char)
    ensures
        final(out)@ == old(out)@ + seq![c],
{
    out.push(c);
    assert(final(out)@ =~= old(out)@ + seq![c]);
}

/// Payload of a violated `enumerate` constraint: the candidate values, in declared order.
#[derive(Debug, Clone)]
pub struct EnumerateErrorParams {
    pub enumerate: Vec<Literal>,
}

impl EnumerateErrorParams {
    pub fn new(enumerate: Vec<Literal>) -> (params: Self)
        ensures
            params.enumerate == enumerate,
    {
        Self { enumerate }
    }

    pub fn enumerate(&self) -> (enumerate: &[Literal])
        ensures
            enumerate@ == self.enumerate@,
    {
        self.enumerate.as_slice()
    }

    pub open spec fn failure(&self) -> Failure {
        Failure::Enumerate(literal_views(self.enumerate@))
    }
}

impl ToDefaultMessage for EnumerateErrorParams {
    fn to_default_message(&self) -> (text: String)
        ensures
            text@ == self.failure().default_message(),
    {
        let mut list: String = String::new();
        let ghost views = literal_views(self.enumerate@);
        let mut i: usize = 0;
        while i < self.enumerate.len()
            invariant
                i <= self.enumerate@.len(),
                views == literal_views(self.enumerate@),
                list@ == literals_text(views.take(i as int)),
            decreases self.enumerate@.len() - i,
        {
            proof {
                assert(views.take(i + 1).drop_last() =~= views.take(i as int));
                assert(views.take(i + 1).last() == self.enumerate@[i as int]@);
            }
            if i > 0 {
                list.append(", ");
            }
            self.enumerate[i].push_text(&mut list);
            proof {
                if i == 0 {
                    assert(views.take(1)[0] == self.enumerate@[0]@);
                    assert(list@ =~= literals_text(views.take(1)));
                }
            }
            i = i + 1;
        }
        proof {
            assert(views.take(i as int) =~= views);
        }
        compose("The value must be in [", list.as_str(), "].")
    }
}

/// A copy of the candidates.
pub fn copy_literals(candidates: &Vec<Literal>) -> (copy: Vec<Literal>)
    ensures
        literal_views(copy@) == literal_views(candidates@),
{
    let mut copy: Vec<Literal> = Vec::new();
    let mut i: usize = 0;
    while i < candidates.len()
        invariant
            i <= candidates@.len(),
            copy@.len() == i,
            forall|k: int| 0 <= k < i ==> (#[trigger] copy@[k])@ == candidates@[k]@,
        decreases candidates@.len() - i,
    {
        let literal: Literal = match &candidates[i] {
            Literal::Bool(b) => Literal::Bool(*b),
            Literal::Number(n) => Literal::Number(*n),
            Literal::Str(s) => Literal::Str(s.clone()),
            Literal::Char(c) => Literal::Char(*c),
            Literal::Null => Literal::Null,
        };
        copy.push(literal);
        i = i + 1;
    }
    proof {
        assert(literal_views(copy@) =~= literal_views(candidates@));
    }
    copy
}

} // verus!
