use vstd::prelude::*;
use vstd::string::StrSliceExecFns;

verus! {

/// Process creation flag: run without a console window.
pub const FLAG_NO_WINDOW: u32 = 0x0800_0000;

/// Process creation flag: detach from the parent's console.
pub const FLAG_DETACHED_PROCESS: u32 = 0x0000_0008;

/// A query typed into the launcher, split into an optional leading keyword
/// and the text searched for.
#[derive(Debug, Clone)]
pub struct Search {
    pub keyword: Option<String>,
    pub search_text: String,
}

/// `s` without leading and trailing whitespace.
pub uninterp spec fn trim_of(s: Seq<char>) -> Seq<char>;

/// Relies on `str::trim`: the result depends on the characters alone, and the
/// empty string stays empty.
#[verifier::external_body]
fn trim_text(s: &str) -> (r: String)
    ensures
        r@ == trim_of(s@),
        s@.len() == 0 ==> r@.len() == 0,
{
    s.trim().to_string()
}

/// Whether `pattern` fuzzy-matches `choice` under the skim algorithm with its
/// default scoring.
pub uninterp spec fn skim_matches(choice: Seq<char>, pattern: Seq<char>) -> bool;

/// Relies on `fuzzy_matcher::skim::SkimMatcherV2::fuzzy_match` with the
/// default matcher: some score is returned exactly when the pattern matches,
/// the outcome depends on the two strings alone, and an empty pattern matches
/// every choice.
#[verifier::external_body]
fn skim_fuzzy_match(choice: &str, pattern: &str) -> (r: bool)
    ensures
        r == skim_matches(choice@, pattern@),
        pattern@.len() == 0 ==> r,
{
    fuzzy_matcher::FuzzyMatcher::fuzzy_match(
        &fuzzy_matcher::skim::SkimMatcherV2::default(),
        choice,
        pattern,
    ).is_some()
}

/// Whether `search_text` fuzzy-matches `original_text`.
pub fn fuzzy_matches(original_text: String, search_text: String) -> (r: bool)
    ensures
        r == skim_matches(original_text@, search_text@),
        search_text@.len() == 0 ==> r,
{
    skim_fuzzy_match(original_text.as_str(), search_text.as_str())
}

/// Splits a query at its first space: what comes before is the keyword,
/// what follows, trimmed, is the search text. A query without a space has no
/// keyword and is searched for whole, trimmed.
pub fn get_search(text: String) -> (r: Search)
    ensures
        match r.keyword {
            Some(k) => exists|i: int|
                0 <= i < text@.len() && text@[i] == ' ' && (forall|j: int|
                    0 <= j < i ==> #[trigger] text@[j] != ' ') && k@ == text@.take(i)
                    && r.search_text@ == trim_of(text@.skip(i + 1)),
            None => (forall|j: int| 0 <= j < text@.len() ==> #[trigger] text@[j] != ' ')
                && r.search_text@ == trim_of(text@),
        },
{
    let s = text.as_str();
    let n = s.unicode_len();
    let mut i: usize = 0;
    while i < n
        invariant
            n == text@.len(),
            s@ == text@,
            i <= n,
            forall|j: int| 0 <= j < i ==> #[trigger] text@[j] != ' ',
        decreases n - i,
    {
        if s.get_char(i) == ' ' {
            let keyword = s.substring_char(0, i).to_owned();
            let rest = s.substring_char(i + 1, n);
            let search_text = trim_text(rest);
            assert(keyword@ == text@.take(i as int));
            assert(rest@ == text@.skip(i + 1));
            return Search { keyword: Some(keyword), search_text };
        }
        i = i + 1;
    }
    Search { keyword: None, search_text: trim_text(s) }
}

} // verus!
