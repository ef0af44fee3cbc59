use vstd::prelude::*;

verus! {

#[verifier::external_type_specification]
#[verifier::external_body]
pub struct ExRegex(regex::Regex);

/// Whether the regex crate accepts `pattern` as a regular expression.
pub uninterp spec fn regex_compiles(pattern: Seq<char>) -> bool;

/// Whether the regular expression `pattern` matches somewhere in `text`.
pub uninterp spec fn regex_is_match(pattern: Seq<char>, text: Seq<char>) -> bool;

/// Relies on regex::Regex::new: it fails exactly on patterns it cannot
/// compile, which depends on the pattern text alone.
#[verifier::external_body]
fn compile_regex(pattern: &str) -> (r: Option<regex::Regex>)
    ensures
        r.is_some() == regex_compiles(pattern@),
{
    regex::Regex::new(pattern).ok()
}

/// A compiled regular expression, remembered with its source text.
#[derive(Debug)]
pub struct Pattern {
    source: String,
    regex: regex::Regex,
}

impl View for Pattern {
    type V = Seq<char>;

    closed spec fn view(&self) -> Seq<char> {
        self.source@
    }
}

impl Pattern {
    /// Compiles `source`; `None` when it is no valid regular expression.
    pub fn new(source: &str) -> (r: Option<Pattern>)
        ensures
            r.is_some() == regex_compiles(source@),
            r matches Some(p) ==> p@ == source@,
    {
        match compile_regex(source) {
            Some(regex) => Some(Pattern { source: source.to_owned(), regex }),
            None => None,
        }
    }

    pub fn source(&self) -> (r: &str)
        ensures
            r@ == self@,
    {
        self.source.as_str()
    }

    /// Relies on regex::Regex::is_match on the expression compiled from
    /// this pattern's source: whether it matches somewhere in `text`.
    #[verifier::external_body]
    pub(crate) fn is_match(&self, text: &str) -> (r: bool)
        ensures
            r == regex_is_match(self@, text@),
    {
        self.regex.is_match(text)
    }
}

/// Whether some pattern of `patterns` matches `text`.
pub open spec fn any_match(patterns: Seq<Pattern>, text: Seq<char>) -> bool {
    exists|i: int| 0 <= i < patterns.len() && #[trigger] regex_is_match(patterns[i]@, text)
}

/// An empty allow-list accepts every text; a non-empty one accepts the texts
/// that one of its patterns matches. The deny-list then rejects every text
/// that one of its patterns matches.
pub open spec fn passes_patterns(text: Seq<char>, allowed: Seq<Pattern>, ignored: Seq<Pattern>) -> bool {
    (allowed.len() == 0 || any_match(allowed, text)) && !any_match(ignored, text)
}

fn matches_any(text: &str, patterns: &Vec<Pattern>) -> (r: bool)
    ensures
        r == any_match(patterns@, text@),
{
    let mut i: usize = 0;
    while i < patterns.len()
        invariant
            i <= patterns@.len(),
            forall|j: int| 0 <= j < i ==> !regex_is_match(#[trigger] patterns@[j]@, text@),
        decreases patterns@.len() - i,
    {
        if patterns[i].is_match(text) {
            return true;
        }
        i = i + 1;
    }
    false
}

/// Whether `text` passes the allow-list and the deny-list.
pub fn filter_regex_patterns(text: &str, allowed: &Vec<Pattern>, ignored: &Vec<Pattern>) -> (r: bool)
    ensures
        r == passes_patterns(text@, allowed@, ignored@),
{
    if allowed.len() > 0 && !matches_any(text, allowed) {
        return false;
    }
    !matches_any(text, ignored)
}

} // verus!
