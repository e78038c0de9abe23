use crate::error::PatternErrorParams;
use crate::text::str_equal;
use std::borrow::Cow;
use vstd::prelude::*;

verus! {

/// `regex::Regex`, a compiled regular expression. Nothing is said of what it holds.
#[verifier::external_type_specification]
#[verifier::external_body]
pub struct ExRegex(regex::Regex);

/// Whether the pattern written as `source` matches somewhere in `text`.
pub uninterp spec fn regex_matches(source: Seq<char>, text: Seq<char>) -> bool;

/// A compiled match predicate, kept together with the text it was compiled from.
///
/// A pattern is only made by [`Pattern::new`], so the compiled form always belongs to the source.
#[derive(Debug)]
pub struct Pattern {
    source: String,
    regex: regex::Regex,
}

/// Why a text could not be made a pattern.
#[derive(Debug, Clone)]
pub struct InvalidPattern {
    pub source: String,
}

/// `regex::Regex::new`: compiles `source` with the default options. It fails on a source that
/// the engine's syntax refuses or whose compiled form would be over the size limit; nothing is
/// said of which sources those are. The compiled form is kept beside a copy of `source`.
#[verifier::external_body]
fn compile(source: &str) -> (compiled: Option<Pattern>)
    ensures
        compiled matches Some(pattern) ==> pattern.source@ == source@,
{
    match regex::Regex::new(source) {
        Ok(regex) => Some(Pattern { source: source.to_owned(), regex }),
        Err(_) => None,
    }
}

/// `regex::Regex::is_match`: true if and only if the pattern matches anywhere in `text`. The
/// answer depends on the pattern's source and on `text` alone.
#[verifier::external_body]
fn is_match(pattern: &Pattern, text: &str) -> (found: bool)
    ensures
        found == regex_matches(pattern.source@, text@),
{
    pattern.regex.is_match(text)
}

/// `Clone` of `regex::Regex`: a second handle on the same compiled pattern, kept beside a copy
/// of the same source.
#[verifier::external_body]
fn duplicate(pattern: &Pattern) -> (made: Pattern)
    ensures
        made.source@ == pattern.source@,
{
    Pattern { source: pattern.source.clone(), regex: pattern.regex.clone() }
}

impl Clone for Pattern {
    fn clone(&self) -> (made: Self)
        ensures
            made@ == self@,
    {
        duplicate(self)
    }
}

impl View for Pattern {
    type V = Seq<char>;

    /// The source text of the pattern.
    closed spec fn view(&self) -> Seq<char> {
        self.source@
    }
}

impl Pattern {
    /// What the attempt to compile `source` gives its caller: the pattern where one was made, and
    /// otherwise a refusal that carries the source.
    pub fn made_or_refused(compiled: Option<Pattern>, source: &str) -> (made: Result<
        Pattern,
        InvalidPattern,
    >)
        ensures
            match compiled {
                Some(pattern) => made == Ok::<Pattern, InvalidPattern>(pattern),
                None => made matches Err(invalid) && invalid.source@ == source@,
            },
    {
        match compiled {
            Some(pattern) => Ok(pattern),
            None => Err(InvalidPattern { source: source.to_owned() }),
        }
    }

    /// Compiles `source`. Whether a source compiles is for the regex engine to say; a pattern
    /// that was made belongs to the source, and a refusal carries it.
    pub fn new(source: &str) -> (made: Result<Pattern, InvalidPattern>)
        ensures
            made matches Ok(pattern) ==> pattern@ == source@,
            made matches Err(invalid) ==> invalid.source@ == source@,
    {
        Pattern::made_or_refused(compile(source), source)
    }

    /// The text that the pattern was compiled from.
    pub fn as_str(&self) -> (source: &str)
        ensures
            source@ == self@,
    {
        self.source.as_str()
    }

    /// Whether the pattern matches somewhere in `text`.
    pub fn is_match(&self, text: &str) -> (found: bool)
        ensures
            found == regex_matches(self@, text@),
    {
        is_match(self, text)
    }
}

/// The result that a pattern check owes for a given answer of the match.
pub fn pattern_result(found: bool, source: &str) -> (result: Result<(), PatternErrorParams>)
    ensures
        result is Ok <==> found,
        result matches Err(params) ==> params.pattern@ == source@,
{
    if found {
        Ok(())
    } else {
        Err(PatternErrorParams::new(source))
    }
}

/// Pattern validation of a text: fails where the pattern matches nowhere in it, and then carries
/// the source text of the pattern.
pub fn validate_string_pattern(
    value: &str,
    pattern: &Pattern,
) -> (result: Result<(), PatternErrorParams>)
    ensures
        result is Ok <==> regex_matches(pattern@, value@),
        result matches Err(params) ==> params.pattern@ == pattern@,
{
    pattern_result(pattern.is_match(value), pattern.as_str())
}

/// Pattern validation of the string.
///
/// See <https://json-schema.org/understanding-json-schema/reference/string.html#regular-expressions>
pub trait ValidatePattern {
    fn validate_pattern(&self, pattern: &Pattern) -> Result<(), PatternErrorParams>;
}

impl ValidatePattern for str {
    fn validate_pattern(&self, pattern: &Pattern) -> (result: Result<(), PatternErrorParams>)
        ensures
            result is Ok <==> regex_matches(pattern@, self@),
            result matches Err(params) ==> params.pattern@ == pattern@,
    {
        validate_string_pattern(self, pattern)
    }
}

impl ValidatePattern for &str {
    fn validate_pattern(&self, pattern: &Pattern) -> (result: Result<(), PatternErrorParams>)
        ensures
            result is Ok <==> regex_matches(pattern@, self@),
            result matches Err(params) ==> params.pattern@ == pattern@,
    {
        validate_string_pattern(*self, pattern)
    }
}

impl ValidatePattern for String {
    fn validate_pattern(&self, pattern: &Pattern) -> (result: Result<(), PatternErrorParams>)
        ensures
            result is Ok <==> regex_matches(pattern@, self@),
            result matches Err(params) ==> params.pattern@ == pattern@,
    {
        validate_string_pattern(self.as_str(), pattern)
    }
}

impl ValidatePattern for Cow<'_, str> {
    fn validate_pattern(&self, pattern: &Pattern) -> (result: Result<(), PatternErrorParams>)
        ensures
            result is Ok <==> regex_matches(pattern@, self@),
            result matches Err(params) ==> params.pattern@ == pattern@,
    {
        match self {
            Cow::Borrowed(borrowed) => validate_string_pattern(*borrowed, pattern),
            Cow::Owned(owned) => validate_string_pattern(owned.as_str(), pattern),
        }
    }
}

/// The compiled patterns of a validation context, each compiled once and found again by its
/// source text.
#[derive(Debug, Clone)]
pub struct PatternCache {
    patterns: Vec<Pattern>,
}

impl PatternCache {
    /// The sources of the cached patterns, in the order in which they were first asked for.
    pub closed spec fn sources(&self) -> Seq<Seq<char>> {
        self.patterns@.map_values(|pattern: Pattern| pattern@)
    }

    /// No source is cached twice.
    pub closed spec fn well_formed(&self) -> bool {
        forall|i: int, j: int|
            0 <= i < j < self.patterns@.len() ==> self.patterns@[i]@ != self.patterns@[j]@
    }

    /// The cached pattern in a slot.
    pub closed spec fn pattern_at(&self, slot: int) -> Pattern {
        self.patterns@[slot]
    }

    /// An empty cache.
    pub fn new() -> (cache: Self)
        ensures
            cache.well_formed(),
            cache.sources() == Seq::<Seq<char>>::empty(),
    {
        let cache = PatternCache { patterns: Vec::new() };
        assert(cache.sources() =~= Seq::<Seq<char>>::empty());
        cache
    }

    /// The number of cached patterns.
    pub fn len(&self) -> (len: usize)
        ensures
            len == self.sources().len(),
    {
        self.patterns.len()
    }

    /// The slot that holds the pattern of `source`, if it was compiled before.
    pub fn find(&self, source: &str) -> (slot: Option<usize>)
        ensures
            match slot {
                Some(k) => k < self.sources().len() && self.sources()[k as int] == source@
                    && forall|i: int| 0 <= i < k ==> self.sources()[i] != source@,
                None => !self.sources().contains(source@),
            },
    {
        let mut i: usize = 0;
        while i < self.patterns.len()
            invariant
                i <= self.patterns@.len(),
                forall|k: int| 0 <= k < i ==> self.sources()[k] != source@,
            decreases self.patterns@.len() - i,
        {
            if str_equal(self.patterns[i].as_str(), source) {
                return Some(i);
            }
            i = i + 1;
        }
        None
    }

    /// Takes what an attempt to compile a source gave: a pattern goes into a new last slot,
    /// unless its source is cached already, and a refusal is handed on, which leaves the cache
    /// as it was.
    pub fn keep(&mut self, compiled: Result<Pattern, InvalidPattern>) -> (slot: Result<
        usize,
        InvalidPattern,
    >)
        ensures
            old(self).well_formed() ==> final(self).well_formed(),
            match compiled {
                Ok(pattern) => slot matches Ok(k) && k < final(self).sources().len()
                    && final(self).sources()[k as int] == pattern@ && final(self).sources() == (
                    if old(self).sources().contains(pattern@) {
                        old(self).sources()
                    } else {
                        old(self).sources().push(pattern@)
                    }),
                Err(invalid) => slot == Err::<usize, InvalidPattern>(invalid)
                    && final(self).sources() == old(self).sources(),
            },
            forall|i: int|
                0 <= i < old(self).sources().len() ==> final(self).pattern_at(i) == old(
                    self,
                ).pattern_at(i),
    {
        match compiled {
            Ok(pattern) => {
                match self.find(pattern.as_str()) {
                    Some(k) => Ok(k),
                    None => {
                        let k: usize = self.patterns.len();
                        self.patterns.push(pattern);
                        proof {
                            assert(final(self).sources() =~= old(self).sources().push(pattern@));
                            if old(self).well_formed() {
                                assert forall|i: int, j: int|
                                    0 <= i < j < self.patterns@.len() implies self.patterns@[i]@
                                    != self.patterns@[j]@ by {
                                    if j == k {
                                        assert(old(self).sources()[i] == self.patterns@[i]@);
                                        assert(old(self).sources().contains(self.patterns@[i]@));
                                    }
                                }
                            }
                        }
                        Ok(k)
                    },
                }
            },
            Err(invalid) => Err(invalid),
        }
    }

    /// The slot of the pattern of `source`: the one that holds it already, or a new last slot
    /// filled by compiling `source` now. A source that is cached is never compiled again and
    /// never refused. A source that is not cached and does not compile is refused, and the cache
    /// stays as it was.
    pub fn get_or_compile(&mut self, source: &str) -> (slot: Result<usize, InvalidPattern>)
        ensures
            old(self).well_formed() ==> final(self).well_formed(),
            old(self).sources().contains(source@) ==> slot is Ok && final(self).sources() == old(
                self,
            ).sources(),
            !old(self).sources().contains(source@) && slot is Ok ==> final(self).sources() == old(
                self,
            ).sources().push(source@),
            slot is Err ==> !old(self).sources().contains(source@) && final(self).sources() == old(
                self,
            ).sources(),
            slot matches Ok(k) ==> k < final(self).sources().len()
                && final(self).sources()[k as int] == source@,
            slot matches Err(invalid) ==> invalid.source@ == source@,
            forall|i: int|
                0 <= i < old(self).sources().len() ==> final(self).pattern_at(i) == old(
                    self,
                ).pattern_at(i),
    {
        match self.find(source) {
            Some(k) => Ok(k),
            None => self.keep(Pattern::new(source)),
        }
    }

    /// The pattern in a slot that [`PatternCache::get_or_compile`] or [`PatternCache::find`] gave.
    pub fn get(&self, slot: usize) -> (pattern: &Pattern)
        requires
            slot < self.sources().len(),
        ensures
            *pattern == self.pattern_at(slot as int),
            pattern@ == self.sources()[slot as int],
    {
        &self.patterns[slot]
    }
}

} // verus!
