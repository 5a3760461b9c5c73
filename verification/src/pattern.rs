use vstd::prelude::*;

verus! {

#[verifier::external_type_specification]
#[verifier::external_body]
pub struct ExRegex(regex::Regex);

/// Whether the pattern with source text `pattern` matches anywhere in `text`,
/// as the regex engine decides it. The decision is a function of the two
/// strings alone; its definition is the engine's and is not restated here.
pub uninterp spec fn regex_matches(pattern: Seq<char>, text: Seq<char>) -> bool;

/// Whether the regex engine accepts `source` as a pattern: a well-formed
/// regular expression within the engine's default size limits. The decision
/// is a function of the source text alone.
pub uninterp spec fn valid_pattern(source: Seq<char>) -> bool;

/// Relies on regex::Regex::new: compiling with the default configuration is
/// deterministic in the source text, yields a matcher exactly when the
/// source is a valid pattern within the default size limits, and fails
/// otherwise.
#[verifier::external_body]
fn compile(source: &str) -> (r: Option<regex::Regex>)
    ensures
        r is Some <==> valid_pattern(source@),
{
    regex::Regex::new(source).ok()
}

/// A compiled exclusion pattern. Its mathematical value is its source text;
/// what the pattern matches is given by [`regex_matches`].
pub struct Pattern {
    source: String,
    re: regex::Regex,
}

impl View for Pattern {
    type V = Seq<char>;

    closed spec fn view(&self) -> Seq<char> {
        self.source@
    }
}

impl DeepView for Pattern {
    type V = Seq<char>;

    open spec fn deep_view(&self) -> Seq<char> {
        self.view()
    }
}

impl Pattern {
    /// Compile `source` into a pattern: `Some` exactly when the engine
    /// accepts `source` as a pattern, `None` otherwise.
    pub fn new(source: &str) -> (r: Option<Pattern>)
        ensures
            r is Some <==> valid_pattern(source@),
            r is Some ==> r->0@ == source@,
    {
        match compile(source) {
            Some(re) => Some(Pattern { source: String::from_str(source), re }),
            None => None,
        }
    }

    /// Relies on regex::Regex::is_match: returns true if and only if the
    /// regex matches anywhere in `text`; deterministic in the pattern source
    /// and the text. The tie between `re` and `source` is established by
    /// [`Pattern::new`], the only constructor.
    #[verifier::external_body]
    fn run_match(&self, text: &str) -> (r: bool)
        ensures
            r == regex_matches(self@, text@),
    {
        self.re.is_match(text)
    }

    /// True if and only if this pattern matches anywhere in `text`.
    pub fn is_match(&self, text: &str) -> (r: bool)
        ensures
            r == regex_matches(self@, text@),
    {
        self.run_match(text)
    }
}

/// Whether any pattern in `patterns` matches `text`.
pub open spec fn any_matches(patterns: Seq<Seq<char>>, text: Seq<char>) -> bool {
    exists|i: int| 0 <= i < patterns.len() && regex_matches(patterns[i], text)
}

/// True if and only if some pattern in the list matches `text`.
pub fn matches_any(patterns: &[Pattern], text: &str) -> (r: bool)
    ensures
        r == any_matches(patterns.deep_view(), text@),
{
    let mut i: usize = 0;
    while i < patterns.len()
        invariant
            0 <= i <= patterns.len(),
            forall|j: int| 0 <= j < i ==> !regex_matches(patterns.deep_view()[j], text@),
        decreases patterns.len() - i,
    {
        if patterns[i].is_match(text) {
            assert(regex_matches(patterns.deep_view()[i as int], text@));
            return true;
        }
        i = i + 1;
    }
    false
}

} // verus!
