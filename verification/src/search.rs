//! Searching the recently opened files: fuzzy matching, the filter's
//! strictness bookkeeping, and the sorter's order.

use fuzzy_matcher::skim::SkimMatcherV2;
use fuzzy_matcher::FuzzyMatcher;
use vstd::prelude::*;
use vstd::string::StrSliceExecFns;

verus! {

/// The score the fuzzy matcher in its default configuration gives `choice`
/// for `pattern`; `None` when the pattern does not match. The score depends
/// on the two strings alone.
pub uninterp spec fn fuzzy_score(choice: Seq<char>, pattern: Seq<char>) -> Option<i64>;

/// Relies on fuzzy_matcher's `SkimMatcherV2::fuzzy_match` with the default
/// configuration: the score is a function of the two strings alone, and an
/// empty pattern matches everything with score zero.
#[verifier::external_body]
fn fuzzy_match_score(choice: &str, pattern: &str) -> (r: Option<i64>)
    ensures
        r == fuzzy_score(choice@, pattern@),
        pattern@.len() == 0 ==> r == Some(0i64),
{
    SkimMatcherV2::default().fuzzy_match(choice, pattern)
}

/// A file's search key: the file's path with every trailing `.gv` removed.
pub open spec fn strip_gv_endings(s: Seq<char>) -> Seq<char>
    decreases s.len(),
{
    if s.len() >= 3 && s[s.len() - 3] == '.' && s[s.len() - 2] == 'g' && s[s.len() - 1] == 'v' {
        strip_gv_endings(s.take(s.len() - 3))
    } else {
        s
    }
}

/// Removes every trailing `.gv` from `path`.
pub fn search_key<'a>(path: &'a str) -> (r: &'a str)
    ensures
        r@ == strip_gv_endings(path@),
{
    let mut t: &str = path;
    let mut n: usize = t.unicode_len();
    while n >= 3 && t.get_char(n - 3) == '.' && t.get_char(n - 2) == 'g' && t.get_char(n - 1)
        == 'v'
        invariant
            n == t@.len(),
            strip_gv_endings(path@) == strip_gv_endings(t@),
        decreases n,
    {
        let next = t.substring_char(0, n - 3);
        proof {
            assert(next@ =~= t@.take(n - 3));
        }
        t = next;
        n = n - 3;
    }
    t
}

/// The score of a recent file in the search: the fuzzy score of its path
/// without the `.gv` endings.
pub fn recent_match_score(path: &str, pattern: &str) -> (r: Option<i64>)
    ensures
        r == fuzzy_score(strip_gv_endings(path@), pattern@),
{
    fuzzy_match_score(search_key(path), pattern)
}

/// How much a filter lets through.
#[derive(Debug, Clone, Copy, PartialEq, Eq, Structural)]
pub enum FilterStrictness {
    /// An empty search: every item passes.
    All,
    /// A non-empty search: only matching items pass.
    Partial,
}

/// How a new search term relates to the old one.
#[derive(Debug, Clone, Copy, PartialEq, Eq, Structural)]
pub enum FilterChange {
    /// The term did not change; nothing is refiltered.
    Unchanged,
    /// Everything the old term let through still passes.
    LessStrict,
    /// Only items the old term let through can pass.
    MoreStrict,
    /// No relation between old and new matches.
    Different,
}

/// `p` is a prefix of `s`.
pub open spec fn is_char_prefix(p: Seq<char>, s: Seq<char>) -> bool {
    p.len() <= s.len() && s.take(p.len() as int) == p
}

/// How the filter change is classified when the search term turns from
/// `old_s` into `new_s`: growing the term filters more strictly, shrinking
/// it less strictly.
pub open spec fn spec_filter_change(old_s: Seq<char>, new_s: Seq<char>) -> FilterChange {
    if new_s.len() == 0 {
        FilterChange::LessStrict
    } else if is_char_prefix(old_s, new_s) {
        FilterChange::MoreStrict
    } else if is_char_prefix(new_s, old_s) {
        FilterChange::LessStrict
    } else {
        FilterChange::Different
    }
}

fn is_prefix_str(p: &str, s: &str) -> (r: bool)
    ensures
        r == is_char_prefix(p@, s@),
{
    let np = p.unicode_len();
    let ns = s.unicode_len();
    if np > ns {
        return false;
    }
    let mut i: usize = 0;
    while i < np
        invariant
            np == p@.len(),
            ns == s@.len(),
            np <= ns,
            i <= np,
            forall|j: int| 0 <= j < i ==> p@[j] == s@[j],
        decreases np - i,
    {
        if p.get_char(i) != s.get_char(i) {
            return false;
        }
        i += 1;
    }
    assert(s@.take(np as int) =~= p@);
    true
}

/// The filter over the recent files: lets a file through when the search
/// term fuzzy-matches its path. The term it holds is already lowercased.
pub struct RecentFilter {
    search: String,
}

impl View for RecentFilter {
    type V = Seq<char>;

    closed spec fn view(&self) -> Seq<char> {
        self.search@
    }
}

impl RecentFilter {
    /// A filter with an empty search term.
    pub fn new() -> (r: RecentFilter)
        ensures
            r@ == Seq::<char>::empty(),
    {
        RecentFilter { search: String::new() }
    }

    /// With an empty term everything passes; otherwise only matches do.
    pub fn strictness(&self) -> (r: FilterStrictness)
        ensures
            r == (if self@.len() == 0 {
                FilterStrictness::All
            } else {
                FilterStrictness::Partial
            }),
    {
        if self.search.as_str().is_empty() {
            FilterStrictness::All
        } else {
            FilterStrictness::Partial
        }
    }

    /// Whether the file at `path` passes the filter.
    pub fn matches_path(&self, path: &str) -> (r: bool)
        ensures
            r == (self@.len() == 0 || fuzzy_score(strip_gv_endings(path@), self@) is Some),
    {
        if self.search.as_str().is_empty() {
            true
        } else {
            recent_match_score(path, self.search.as_str()).is_some()
        }
    }

    /// Takes a new, already lowercased search term and says how the set of
    /// passing items can change.
    pub fn set_search(&mut self, lowered: String) -> (r: FilterChange)
        ensures
            old(self)@ == lowered@ ==> r == FilterChange::Unchanged && final(self)@ == old(self)@,
            old(self)@ != lowered@ ==> final(self)@ == lowered@ && r == spec_filter_change(
                old(self)@,
                lowered@,
            ),
    {
        if self.search == lowered {
            return FilterChange::Unchanged;
        }
        let change = if lowered.as_str().is_empty() {
            FilterChange::LessStrict
        } else if is_prefix_str(self.search.as_str(), lowered.as_str()) {
            FilterChange::MoreStrict
        } else if is_prefix_str(lowered.as_str(), self.search.as_str()) {
            FilterChange::LessStrict
        } else {
            FilterChange::Different
        };
        self.search = lowered;
        change
    }
}

/// Which page the recent-files popover shows.
#[derive(Debug, Clone, Copy, PartialEq, Eq, Structural)]
pub enum RecentsStackPage {
    /// A search matched nothing.
    EmptySearch,
    /// There are no recent files at all.
    Empty,
    /// The list of recent files.
    List,
}

/// The popover's page, from how many files there are, how many pass the
/// filter, and whether a search term is set.
pub fn recents_stack_page(n_items: usize, n_filtered: usize, search_empty: bool) -> (r:
    RecentsStackPage)
    ensures
        n_filtered == 0 && !search_empty ==> r == RecentsStackPage::EmptySearch,
        n_items == 0 && search_empty ==> r == RecentsStackPage::Empty,
        !(n_filtered == 0 && !search_empty) && !(n_items == 0 && search_empty) ==> r
            == RecentsStackPage::List,
{
    if n_filtered == 0 && !search_empty {
        RecentsStackPage::EmptySearch
    } else if n_items == 0 && search_empty {
        RecentsStackPage::Empty
    } else {
        RecentsStackPage::List
    }
}

/// An order between two recent files.
#[derive(Debug, Clone, Copy, PartialEq, Eq, Structural)]
pub enum RecentOrdering {
    Smaller,
    Equal,
    Larger,
}

/// The order of two signed numbers.
pub open spec fn spec_order_i64(a: int, b: int) -> RecentOrdering {
    if a < b {
        RecentOrdering::Smaller
    } else if a == b {
        RecentOrdering::Equal
    } else {
        RecentOrdering::Larger
    }
}

/// The order of two optional scores: no score sorts before any score.
pub open spec fn spec_order_scores(a: Option<i64>, b: Option<i64>) -> RecentOrdering {
    match (a, b) {
        (Option::None, Option::None) => RecentOrdering::Equal,
        (Option::None, Option::Some(_)) => RecentOrdering::Smaller,
        (Option::Some(_), Option::None) => RecentOrdering::Larger,
        (Option::Some(x), Option::Some(y)) => spec_order_i64(x as int, y as int),
    }
}

fn order_i64(a: i64, b: i64) -> (r: RecentOrdering)
    ensures
        r == spec_order_i64(a as int, b as int),
{
    if a < b {
        RecentOrdering::Smaller
    } else if a == b {
        RecentOrdering::Equal
    } else {
        RecentOrdering::Larger
    }
}

/// The sorter over the recent files: most recently added first while the
/// search term is empty, best fuzzy score first otherwise. The term it
/// holds is already lowercased.
pub struct RecentSorter {
    search: String,
}

impl View for RecentSorter {
    type V = Seq<char>;

    closed spec fn view(&self) -> Seq<char> {
        self.search@
    }
}

impl RecentSorter {
    /// A sorter with an empty search term.
    pub fn new() -> (r: RecentSorter)
        ensures
            r@ == Seq::<char>::empty(),
    {
        RecentSorter { search: String::new() }
    }

    /// Takes a new search term and says whether the order may have changed.
    pub fn set_search(&mut self, search: String) -> (changed: bool)
        ensures
            old(self)@ == search@ ==> !changed && final(self)@ == old(self)@,
            old(self)@ != search@ ==> changed && final(self)@ == search@,
    {
        if self.search == search {
            false
        } else {
            self.search = search;
            true
        }
    }

    /// Compares two recent files, each given by its path and the time it
    /// was added: newer first without a search term, higher score first
    /// with one.
    pub fn compare(&self, path_1: &str, added_1: i64, path_2: &str, added_2: i64) -> (r:
        RecentOrdering)
        ensures
            self@.len() == 0 ==> r == spec_order_i64(added_2 as int, added_1 as int),
            self@.len() != 0 ==> r == spec_order_scores(
                fuzzy_score(strip_gv_endings(path_2@), self@),
                fuzzy_score(strip_gv_endings(path_1@), self@),
            ),
    {
        if self.search.as_str().is_empty() {
            order_i64(added_2, added_1)
        } else {
            let score_1 = recent_match_score(path_1, self.search.as_str());
            let score_2 = recent_match_score(path_2, self.search.as_str());
            match (score_2, score_1) {
                (Option::None, Option::None) => RecentOrdering::Equal,
                (Option::None, Option::Some(_)) => RecentOrdering::Smaller,
                (Option::Some(_), Option::None) => RecentOrdering::Larger,
                (Option::Some(x), Option::Some(y)) => order_i64(x, y),
            }
        }
    }
}

} // verus!
