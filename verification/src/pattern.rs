use vstd::prelude::*;

verus! {

#[verifier::external_type_specification]
#[verifier::external_body]
pub struct ExRegex(regex::Regex);

/// Whether a pattern is a valid regular expression; compilation succeeds or
/// fails on the pattern text alone.
pub uninterp spec fn pattern_ok(pattern: Seq<char>) -> bool;

/// Whether a compiled pattern matches somewhere in a text.
pub uninterp spec fn pattern_matches(pattern: Seq<char>, text: Seq<char>) -> bool;

/// The leftmost match of a pattern in a text, or `None`.
pub uninterp spec fn pattern_find(pattern: Seq<char>, text: Seq<char>) -> Option<Seq<char>>;

/// The capture groups of the leftmost match of a pattern in a text: the full
/// match first, then one entry per group, unmatched groups as `None`; or
/// `None` when the pattern does not match at all.
pub uninterp spec fn pattern_captures(pattern: Seq<char>, text: Seq<char>) -> Option<
    Seq<Option<Seq<char>>>,
>;

/// The pattern-matching utility exposed to check scripts: a pattern compiled
/// once, queried for matches, first match and capture groups.
///
/// The compiled automaton is kept beside the pattern text it was compiled
/// from; the only constructor is `compile`, so the two never diverge.
pub struct LuaRegex {
    pattern: String,
    regex: regex::Regex,
}

impl LuaRegex {
    /// The pattern text this matcher was compiled from.
    pub closed spec fn pattern(&self) -> Seq<char> {
        self.pattern@
    }

    /// Relies on regex::Regex::new: whether a pattern compiles is a function
    /// of the pattern text alone; a rejected pattern comes back as the
    /// compiler's message.
    #[verifier::external_body]
    pub fn compile(pattern: String) -> (r: Result<LuaRegex, String>)
        ensures
            r matches Ok(m) ==> m.pattern() == pattern@ && pattern_ok(pattern@),
            r is Err ==> !pattern_ok(pattern@),
    {
        match regex::Regex::new(&pattern) {
            Ok(regex) => Ok(LuaRegex { pattern, regex }),
            Err(e) => Err(e.to_string()),
        }
    }

    /// Relies on regex::Regex::is_match: the answer is a function of the
    /// pattern and the text alone.
    #[verifier::external_body]
    pub fn is_match(&self, text: &str) -> (r: bool)
        ensures
            r == pattern_matches(self.pattern(), text@),
    {
        self.regex.is_match(text)
    }

    /// Relies on regex::Regex::find: the leftmost match is a function of the
    /// pattern and the text alone, and exists exactly when the pattern
    /// matches.
    #[verifier::external_body]
    pub fn find(&self, text: &str) -> (r: Option<String>)
        ensures
            r matches Some(m) ==> pattern_find(self.pattern(), text@) == Some(m@),
            r is None ==> pattern_find(self.pattern(), text@) is None,
            r is Some == pattern_matches(self.pattern(), text@),
    {
        self.regex.find(text).map(|m| m.as_str().to_string())
    }

    /// Relies on regex::Regex::captures: the groups of the leftmost match are
    /// a function of the pattern and the text alone, and exist exactly when
    /// the pattern matches.
    #[verifier::external_body]
    pub fn captures(&self, text: &str) -> (r: Option<Vec<Option<String>>>)
        ensures
            r matches Some(groups) ==> pattern_captures(self.pattern(), text@) == Some(
                groups.deep_view(),
            ),
            r is None ==> pattern_captures(self.pattern(), text@) is None,
            r is Some == pattern_matches(self.pattern(), text@),
    {
        self.regex.captures(text).map(
            |caps| caps.iter().map(|m| m.map(|g| g.as_str().to_string())).collect(),
        )
    }
}

} // verus!
