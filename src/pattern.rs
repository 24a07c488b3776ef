//! Regular-expression patterns, matched through the `regex` crate.
use vstd::prelude::*;

verus! {

/// Whether `regex::Regex::new` accepts the pattern; this depends on the
/// pattern alone.
pub uninterp spec fn regex_valid(pattern: Seq<char>) -> bool;

/// Whether the pattern compiles and matches somewhere in `text`
/// (`regex::Regex::is_match`, a search rather than a full match).
pub uninterp spec fn regex_finds(pattern: Seq<char>, text: Seq<char>) -> bool;

/// The capture groups of the leftmost match of the pattern in `text`
/// (`regex::Regex::captures`): group 0 is the whole match, and a group that
/// took no part in the match is `None`. `None` when there is no match or the
/// pattern does not compile.
pub uninterp spec fn regex_captures(pattern: Seq<char>, text: Seq<char>) -> Option<
    Seq<Option<Seq<char>>>,
>;

/// Relies on `regex::Regex::new`: whether it returns `Ok` for the pattern.
#[verifier::external_body]
fn regex_compiles(pattern: &str) -> (r: bool)
    ensures
        r == regex_valid(pattern@),
{
    regex::Regex::new(pattern).is_ok()
}

/// Relies on `regex::Regex::is_match` for the pattern compiled by
/// `regex::Regex::new`.
#[verifier::external_body]
fn regex_search(pattern: &str, text: &str) -> (r: bool)
    ensures
        r == regex_finds(pattern@, text@),
{
    match regex::Regex::new(pattern) {
        Ok(re) => re.is_match(text),
        Err(_) => false,
    }
}

/// Relies on `regex::Regex::captures` for the pattern compiled by
/// `regex::Regex::new`, each group turned into an owned string.
#[verifier::external_body]
pub(crate) fn regex_capture_groups(pattern: &str, text: &str) -> (r: Option<Vec<Option<String>>>)
    ensures
        r.deep_view() == regex_captures(pattern@, text@),
{
    match regex::Regex::new(pattern) {
        Ok(re) => re.captures(text).map(
            |groups| groups.iter().map(|g| g.map(|m| m.as_str().to_string())).collect(),
        ),
        Err(_) => None,
    }
}

/// A regular expression known to compile.
pub struct Pattern {
    source: String,
}

impl View for Pattern {
    type V = Seq<char>;

    closed spec fn view(&self) -> Seq<char> {
        self.source@
    }
}

impl Pattern {
    #[verifier::type_invariant]
    spec fn compiles(self) -> bool {
        regex_valid(self.source@)
    }

    /// Checks that `source` compiles; an invalid pattern is a configuration
    /// error.
    pub fn new(source: String) -> (r: Result<Pattern, String>)
        ensures
            r is Ok <==> regex_valid(source@),
            r matches Ok(p) ==> p@ == source@,
            r matches Err(s) ==> s@ == source@,
    {
        if regex_compiles(source.as_str()) {
            Ok(Pattern { source })
        } else {
            Err(source)
        }
    }

    /// The pattern's text, which compiles.
    pub fn as_str(&self) -> (r: &str)
        ensures
            r@ == self@,
            regex_valid(r@),
    {
        proof {
            use_type_invariant(self);
        }
        self.source.as_str()
    }

    /// Whether `pattern` compiles and matches somewhere in `text`.
    pub fn search(pattern: &str, text: &str) -> (r: bool)
        ensures
            r == regex_finds(pattern@, text@),
    {
        regex_search(pattern, text)
    }

    /// Whether the pattern matches somewhere in `text`.
    pub fn is_match(&self, text: &str) -> (r: bool)
        ensures
            r == regex_finds(self@, text@),
    {
        regex_search(self.source.as_str(), text)
    }
}

} // verus!
