//! Picks the best layout for a query, scoring each candidate with the skim
//! fuzzy matcher.
use fuzzy_matcher::skim::SkimMatcherV2;
use fuzzy_matcher::FuzzyMatcher;
use vstd::prelude::*;

verus! {

/// The score that the skim matcher (default settings) gives `choice` for
/// `pattern`, or `None` where the pattern does not occur in it.
pub uninterp spec fn skim_score(choice: Seq<char>, pattern: Seq<char>) -> Option<i64>;

/// Whether `c` is an ASCII letter.
pub open spec fn is_ascii_letter(c: char) -> bool {
    (65 <= c as u32 <= 90) || (97 <= c as u32 <= 122)
}

/// The code of the ASCII letter `c` in lower case.
pub open spec fn ascii_fold(c: char) -> int {
    if 65 <= c as u32 <= 90 {
        c as u32 + 32
    } else {
        c as u32 as int
    }
}

/// Whether `p` holds an ASCII upper-case letter (the matcher then compares
/// characters exactly, and ignores ASCII case otherwise).
pub open spec fn has_ascii_upper(p: Seq<char>) -> bool {
    exists|i: int| 0 <= i < p.len() && 65 <= #[trigger] p[i] as u32 <= 90
}

/// Whether the choice character `c` matches the pattern character `p`:
/// exactly, or with ASCII case ignored.
pub open spec fn chars_agree(c: char, p: char, case_sensitive: bool) -> bool {
    if case_sensitive {
        c == p
    } else {
        c == p || (is_ascii_letter(c) && is_ascii_letter(p) && ascii_fold(c) == ascii_fold(p))
    }
}

/// Whether the characters of `p` occur in `c` in order, compared by
/// `chars_agree`.
pub open spec fn occurs_in_order(p: Seq<char>, c: Seq<char>, case_sensitive: bool) -> bool
    decreases c.len(),
{
    if p.len() == 0 {
        true
    } else if c.len() == 0 {
        false
    } else if chars_agree(c[0], p[0], case_sensitive) {
        occurs_in_order(p.drop_first(), c.drop_first(), case_sensitive)
    } else {
        occurs_in_order(p, c.drop_first(), case_sensitive)
    }
}

/// Whether the query `q` occurs in order in `c` as the matcher compares it.
pub open spec fn fuzzy_occurs(q: Seq<char>, c: Seq<char>) -> bool {
    occurs_in_order(q, c, has_ascii_upper(q))
}

/// Whether `p` holds an ASCII lower-case letter.
pub open spec fn has_ascii_lower(p: Seq<char>) -> bool {
    exists|i: int| 0 <= i < p.len() && 97 <= #[trigger] p[i] as u32 <= 122
}

/// Whether the characters of `q` occur in `c` in order, compared exactly.
pub open spec fn is_subsequence(q: Seq<char>, c: Seq<char>) -> bool {
    occurs_in_order(q, c, true)
}

proof fn lemma_folded_order_is_exact(p: Seq<char>, c: Seq<char>)
    requires
        occurs_in_order(p, c, false),
        !has_ascii_lower(p),
        !has_ascii_upper(p),
    ensures
        occurs_in_order(p, c, true),
    decreases c.len(),
{
    if p.len() > 0 && c.len() > 0 {
        assert(!(97 <= p[0] as u32 <= 122));
        assert(!(65 <= p[0] as u32 <= 90));
        if chars_agree(c[0], p[0], false) {
            assert forall|i: int| 0 <= i < p.drop_first().len() implies !(97 <= #[trigger] p.drop_first()[i] as u32 <= 122) && !(65 <= p.drop_first()[i] as u32 <= 90) by {
                assert(p.drop_first()[i] == p[i + 1]);
            }
            lemma_folded_order_is_exact(p.drop_first(), c.drop_first());
        } else {
            lemma_folded_order_is_exact(p, c.drop_first());
        }
    }
}

/// A query that the matcher finds in a candidate occurs in it as a
/// subsequence, character for character, whenever the query holds an
/// ASCII upper-case letter or no ASCII lower-case one. (A query of lower
/// case letters also finds their upper-case forms.)
pub proof fn lemma_found_query_is_subsequence(q: Seq<char>, c: Seq<char>)
    requires
        fuzzy_occurs(q, c),
        has_ascii_upper(q) || !has_ascii_lower(q),
    ensures
        is_subsequence(q, c),
{
    if !has_ascii_upper(q) {
        lemma_folded_order_is_exact(q, c);
    }
}

/// Relies on `SkimMatcherV2::fuzzy_match` of fuzzy-matcher, default
/// settings: an empty pattern scores `Some(0)`; otherwise a score comes back
/// exactly when the pattern's characters occur in order in the choice
/// (smart case: exact comparison when the pattern holds an ASCII upper-case
/// letter, ASCII case ignored otherwise).
#[verifier::external_body]
fn skim_fuzzy_match(choice: &str, pattern: &str) -> (r: Option<i64>)
    ensures
        r == skim_score(choice@, pattern@),
        pattern@.len() == 0 ==> r == Some(0i64),
        pattern@.len() > 0 ==> (r is Some <==> fuzzy_occurs(pattern@, choice@)),
{
    SkimMatcherV2::default().fuzzy_match(choice, pattern)
}

/// Whether `r` is the candidate the launcher selects given `scores`: the
/// first of the highest scores above zero, or none where no score is above
/// zero.
pub open spec fn is_best_choice(scores: Seq<Option<i64>>, r: Option<usize>) -> bool {
    match r {
        None => forall|j: int| 0 <= j < scores.len() && #[trigger] scores[j] is Some ==> scores[j]->0 <= 0,
        Some(i) => {
            &&& i < scores.len()
            &&& scores[i as int] is Some
            &&& scores[i as int]->0 > 0
            &&& forall|j: int|
                0 <= j < scores.len() && #[trigger] scores[j] is Some ==> scores[j]->0
                    <= scores[i as int]->0
            &&& forall|j: int|
                0 <= j < i && #[trigger] scores[j] is Some ==> scores[j]->0 < scores[i as int]->0
        },
    }
}

/// The selection is a function of the scores: two selections that both
/// satisfy `is_best_choice` on the same scores are the same.
pub proof fn lemma_best_choice_unique(scores: Seq<Option<i64>>, r1: Option<usize>, r2: Option<usize>)
    requires
        is_best_choice(scores, r1),
        is_best_choice(scores, r2),
    ensures
        r1 == r2,
{
    match (r1, r2) {
        (Some(i), Some(k)) => {
            if i < k {
                assert(scores[i as int] is Some);
            } else if k < i {
                assert(scores[k as int] is Some);
            }
        },
        (Some(i), None) => {
            assert(scores[i as int] is Some);
        },
        (None, Some(k)) => {
            assert(scores[k as int] is Some);
        },
        (None, None) => {},
    }
}

/// Selects, among `scores`, the first of the highest scores above zero.
pub fn select_best(scores: &Vec<Option<i64>>) -> (r: Option<usize>)
    ensures
        is_best_choice(scores@, r),
{
    let mut best: Option<usize> = None;
    let mut best_score: i64 = 0;
    let mut i: usize = 0;
    while i < scores.len()
        invariant
            i <= scores.len(),
            best_score >= 0,
            match best {
                None => best_score == 0 && forall|j: int|
                    0 <= j < i && #[trigger] scores@[j] is Some ==> scores@[j]->0 <= 0,
                Some(b) => {
                    &&& b < i
                    &&& scores@[b as int] == Some(best_score)
                    &&& best_score > 0
                    &&& forall|j: int|
                        0 <= j < i && #[trigger] scores@[j] is Some ==> scores@[j]->0 <= best_score
                    &&& forall|j: int|
                        0 <= j < b && #[trigger] scores@[j] is Some ==> scores@[j]->0 < best_score
                },
            },
        decreases scores.len() - i,
    {
        if let Some(s) = scores[i] {
            if s > best_score {
                best_score = s;
                best = Some(i);
            }
        }
        i = i + 1;
    }
    best
}

/// The views of a sequence of strings.
pub open spec fn string_views(v: Seq<String>) -> Seq<Seq<char>> {
    v.map_values(|s: String| s@)
}

/// The score of each candidate for `query`.
pub open spec fn candidate_scores(candidates: Seq<Seq<char>>, query: Seq<char>) -> Seq<Option<i64>> {
    candidates.map_values(|c: Seq<char>| skim_score(c, query))
}

/// The index of the best candidate for `query`: the first of the highest
/// scores above zero. An empty query matches nothing, and a candidate that
/// is chosen holds the query's characters in order.
pub fn best_match(candidates: &Vec<String>, query: &str) -> (r: Option<usize>)
    ensures
        is_best_choice(candidate_scores(string_views(candidates@), query@), r),
        query@.len() == 0 ==> r is None,
        r matches Some(i) ==> fuzzy_occurs(query@, candidates@[i as int]@),
{
    let ghost views = string_views(candidates@);
    let mut scores: Vec<Option<i64>> = Vec::new();
    let mut i: usize = 0;
    while i < candidates.len()
        invariant
            i <= candidates.len(),
            views == string_views(candidates@),
            scores@.len() == i,
            forall|j: int| 0 <= j < i ==> #[trigger] scores@[j] == skim_score(views[j], query@),
            forall|j: int| 0 <= j < i && query@.len() == 0 ==> #[trigger] scores@[j] == Some(0i64),
            forall|j: int|
                0 <= j < i && query@.len() > 0 && #[trigger] scores@[j] is Some ==> fuzzy_occurs(
                    query@,
                    views[j],
                ),
        decreases candidates.len() - i,
    {
        let s = skim_fuzzy_match(candidates[i].as_str(), query);
        scores.push(s);
        i = i + 1;
    }
    let r = select_best(&scores);
    assert(scores@ =~= candidate_scores(views, query@));
    proof {
        if let Some(k) = r {
            if query@.len() == 0 {
                assert(scores@[k as int] == Some(0i64));
            } else {
                assert(scores@[k as int] is Some);
                assert(views[k as int] == candidates@[k as int]@);
            }
        }
    }
    r
}

/// The candidates that `query` occurs in, in their order: those with a score.
pub fn matching_candidates(candidates: &Vec<String>, query: &str) -> (r: Vec<String>)
    ensures
        string_views(r@) == string_views(candidates@).filter(
            |c: Seq<char>| skim_score(c, query@) is Some,
        ),
{
    let ghost pred = |c: Seq<char>| skim_score(c, query@) is Some;
    let mut out: Vec<String> = Vec::new();
    let mut i: usize = 0;
    while i < candidates.len()
        invariant
            i <= candidates.len(),
            pred == (|c: Seq<char>| skim_score(c, query@) is Some),
            string_views(out@) == string_views(candidates@.subrange(0, i as int)).filter(pred),
        decreases candidates.len() - i,
    {
        let s = skim_fuzzy_match(candidates[i].as_str(), query);
        proof {
            let prefix = candidates@.subrange(0, i as int);
            let next = candidates@.subrange(0, i as int + 1);
            assert(next =~= prefix.push(candidates@[i as int]));
            assert(string_views(next) =~= string_views(prefix).push(candidates@[i as int]@));
            assert(string_views(next).drop_last() =~= string_views(prefix));
            reveal(Seq::filter);
        }
        let ghost before = out@;
        if s.is_some() {
            let c = candidates[i].clone();
            out.push(c);
            assert(string_views(out@) =~= string_views(before).push(c@));
        }
        i = i + 1;
    }
    assert(candidates@.subrange(0, candidates@.len() as int) =~= candidates@);
    out
}

} // verus!
