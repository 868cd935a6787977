use workspace_launcher::{best_match, matching_candidates, select_best};

fn strings(v: &[&str]) -> Vec<String> {
    v.iter().map(|s| s.to_string()).collect()
}

fn is_subsequence(q: &str, c: &str) -> bool {
    let mut it = c.chars().map(|x| x.to_ascii_lowercase());
    q.chars()
        .map(|x| x.to_ascii_lowercase())
        .all(|x| it.any(|y| y == x))
}

#[test]
fn select_best_takes_first_of_equal_scores() {
    assert_eq!(select_best(&vec![Some(5), None, Some(5)]), Some(0));
    assert_eq!(select_best(&vec![Some(5), None, Some(7), Some(7)]), Some(2));
}

#[test]
fn select_best_ignores_scores_not_above_zero() {
    assert_eq!(select_best(&vec![Some(0), None, Some(-3)]), None);
    assert_eq!(select_best(&vec![]), None);
}

#[test]
fn tie_break_prefers_first_candidate() {
    let c = strings(&["abc", "abd"]);
    assert_eq!(best_match(&c, "a"), Some(0));
}

#[test]
fn empty_query_matches_nothing() {
    let c = strings(&["foo", "bar"]);
    assert_eq!(best_match(&c, ""), None);
}

#[test]
fn match_picks_a_candidate_holding_the_query() {
    let c = strings(&["layouts/a.kdl", "layouts/dev.kdl", "layouts/web.kdl"]);
    let r = best_match(&c, "dev");
    assert_eq!(r, Some(1));
    for q in ["lw", "ak", "kdl", "l/b"] {
        if let Some(i) = best_match(&c, q) {
            assert!(is_subsequence(q, &c[i]));
        }
    }
}

#[test]
fn query_absent_from_all_candidates_matches_nothing() {
    let c = strings(&["layouts/a.kdl", "layouts/b.kdl"]);
    assert_eq!(best_match(&c, "zzz"), None);
}

#[test]
fn upper_case_query_is_case_sensitive() {
    let c = strings(&["dev", "Dev"]);
    assert_eq!(best_match(&c, "D"), Some(1));
    assert!(best_match(&c, "d").is_some());
}

#[test]
fn matcher_is_deterministic() {
    let c = strings(&["alpha", "beta", "alphabet"]);
    let first = best_match(&c, "al");
    for _ in 0..5 {
        assert_eq!(best_match(&c, "al"), first);
    }
}

#[test]
fn matching_candidates_keeps_order() {
    let c = strings(&["web", "dev", "dave", "ops"]);
    assert_eq!(matching_candidates(&c, "dv"), strings(&["dev", "dave"]));
    assert_eq!(matching_candidates(&c, ""), c);
}

#[test]
fn lower_case_query_also_finds_upper_case_letters() {
    let c = strings(&["ABC"]);
    assert_eq!(best_match(&c, "a"), Some(0));
    assert_eq!(best_match(&c, "A"), Some(0));
    assert_eq!(best_match(&strings(&["abc"]), "A"), None);
}
