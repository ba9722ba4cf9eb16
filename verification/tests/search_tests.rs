use delineate::search::{
    recent_match_score, search_key, FilterChange, FilterStrictness, RecentFilter,
    RecentOrdering, RecentSorter,
};

#[test]
fn search_key_strips_every_trailing_gv() {
    assert_eq!(search_key("/home/u/file.gv"), "/home/u/file");
    assert_eq!(search_key("/home/u/file.gv.gv"), "/home/u/file");
    assert_eq!(search_key("/home/u/file.gvx"), "/home/u/file.gvx");
    assert_eq!(search_key("graph.gv.bak"), "graph.gv.bak");
    assert_eq!(search_key(".gv"), "");
    assert_eq!(search_key(""), "");
}

#[test]
fn fuzzy_score_is_no_identity() {
    assert!(recent_match_score("/home/u/alpha.gv", "alp").is_some());
    assert!(recent_match_score("/home/u/alpha.gv", "zqw").is_none());
}

#[test]
fn empty_pattern_matches_everything() {
    assert!(recent_match_score("/anything/at/all", "").is_some());
}

#[test]
fn pattern_matching_only_the_stripped_ending_fails() {
    // The trailing `.gv` is stripped before matching, so a pattern that
    // needs those letters in that order cannot match.
    assert!(recent_match_score("/d/a.gv", "agv").is_none());
    assert!(recent_match_score("/d/agv.gv", "agv").is_some());
}

#[test]
fn filter_lets_everything_through_without_a_search() {
    let filter = RecentFilter::new();
    assert_eq!(filter.strictness(), FilterStrictness::All);
    assert!(filter.matches_path("/home/u/whatever.gv"));
}

#[test]
fn filter_with_search_lets_only_matches_through() {
    let mut filter = RecentFilter::new();
    filter.set_search("alp".to_string());
    assert_eq!(filter.strictness(), FilterStrictness::Partial);
    assert!(filter.matches_path("/home/u/alpha.gv"));
    assert!(!filter.matches_path("/home/u/beta.gv"));
}

#[test]
fn filter_change_classification() {
    let mut filter = RecentFilter::new();
    assert_eq!(filter.set_search("a".to_string()), FilterChange::MoreStrict);
    assert_eq!(filter.set_search("ab".to_string()), FilterChange::MoreStrict);
    assert_eq!(filter.set_search("ab".to_string()), FilterChange::Unchanged);
    assert_eq!(filter.set_search("a".to_string()), FilterChange::LessStrict);
    assert_eq!(filter.set_search("x".to_string()), FilterChange::Different);
    assert_eq!(filter.set_search("".to_string()), FilterChange::LessStrict);
}

#[test]
fn sorter_orders_by_time_without_a_search() {
    let sorter = RecentSorter::new();
    // The second file is newer, so it sorts larger (i.e. before the first
    // under a descending order).
    assert_eq!(sorter.compare("/a.gv", 10, "/b.gv", 20), RecentOrdering::Larger);
    assert_eq!(sorter.compare("/a.gv", 20, "/b.gv", 10), RecentOrdering::Smaller);
    assert_eq!(sorter.compare("/a.gv", 15, "/b.gv", 15), RecentOrdering::Equal);
}

#[test]
fn sorter_orders_by_score_with_a_search() {
    let mut sorter = RecentSorter::new();
    assert!(sorter.set_search("alp".to_string()));
    assert!(!sorter.set_search("alp".to_string()));
    // The second file does not match at all, so it compares smaller.
    assert_eq!(sorter.compare("/u/alpha.gv", 10, "/u/beta.gv", 20), RecentOrdering::Smaller);
    assert_eq!(sorter.compare("/u/beta.gv", 10, "/u/alpha.gv", 20), RecentOrdering::Larger);
}
