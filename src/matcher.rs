//! Exact lookup and fuzzy ranking of skills.

use vstd::prelude::*;

use crate::error::SkillError;
use crate::model::Skill;
use crate::text::{lower_of, lowercase};
use fuzzy_matcher::skim::SkimMatcherV2;
use fuzzy_matcher::FuzzyMatcher;

verus! {

/// Whether `q` names the skill: its name or its id equals `q` once all three
/// are case-folded.
pub open spec fn key_matches(s: Skill, q: Seq<char>) -> bool {
    lower_of(s.name@) == lower_of(q) || lower_of(s.id@) == lower_of(q)
}

/// The position of the first skill, from `i` on, that `q` names.
pub open spec fn first_match_from(skills: Seq<Skill>, q: Seq<char>, i: int) -> Option<int>
    decreases skills.len() - i,
{
    if i < 0 || i >= skills.len() {
        None
    } else if key_matches(skills[i], q) {
        Some(i)
    } else {
        first_match_from(skills, q, i + 1)
    }
}

/// The position of the first skill in catalog order that `q` names.
pub open spec fn first_match(skills: Seq<Skill>, q: Seq<char>) -> Option<int> {
    first_match_from(skills, q, 0)
}

/// Whether case-folded keys match: the query equals the folded name or the
/// folded id.
pub fn matches_folded(name_l: &String, id_l: &String, query_l: &String) -> (r: bool)
    ensures
        r == (name_l@ == query_l@ || id_l@ == query_l@),
{
    *name_l == *query_l || *id_l == *query_l
}

proof fn lemma_first_match_from(skills: Seq<Skill>, q: Seq<char>, i: int)
    requires
        0 <= i <= skills.len(),
    ensures
        first_match_from(skills, q, i) matches Some(k) ==> i <= k < skills.len() && key_matches(
            skills[k],
            q,
        ) && forall|j: int| i <= j < k ==> !key_matches(skills[j], q),
        first_match_from(skills, q, i) is None ==> forall|j: int|
            i <= j < skills.len() ==> !key_matches(skills[j], q),
    decreases skills.len() - i,
{
    if i < skills.len() && !key_matches(skills[i], q) {
        lemma_first_match_from(skills, q, i + 1);
    }
}

/// A skill is found under its own name and under its own id, in any case,
/// unless an earlier skill of the catalog answers to the same key.
pub proof fn lemma_find_own_key(skills: Seq<Skill>, i: int, q: Seq<char>)
    requires
        0 <= i < skills.len(),
        lower_of(q) == lower_of(skills[i].name@) || lower_of(q) == lower_of(skills[i].id@),
        forall|j: int| 0 <= j < i ==> !key_matches(#[trigger] skills[j], q),
    ensures
        first_match(skills, q) == Some(i),
{
    lemma_first_match_from(skills, q, 0);
}

/// Resolves `name` to the first skill, in catalog order, whose name or id
/// equals it case-insensitively.
pub fn find(skills: &Vec<Skill>, name: &String) -> (r: Result<usize, SkillError>)
    ensures
        match r {
            Ok(i) => i < skills@.len() && first_match(skills@, name@) == Some(i as int),
            Err(e) => first_match(skills@, name@) is None && e == SkillError::NotFound(*name),
        },
        r is Ok <==> exists|j: int| 0 <= j < skills@.len() && key_matches(skills@[j], name@),
{
    let q = lowercase(name.as_str());
    let mut i: usize = 0;
    while i < skills.len()
        invariant
            0 <= i <= skills@.len(),
            q@ == lower_of(name@),
            first_match(skills@, name@) == first_match_from(skills@, name@, i as int),
        decreases skills@.len() - i,
    {
        let n = lowercase(skills[i].name.as_str());
        let d = lowercase(skills[i].id.as_str());
        if matches_folded(&n, &d, &q) {
            proof {
                lemma_first_match_from(skills@, name@, 0);
            }
            return Ok(i);
        }
        i += 1;
    }
    proof {
        lemma_first_match_from(skills@, name@, 0);
    }
    Err(SkillError::NotFound(name.clone()))
}

/// What `SkimMatcherV2::fuzzy_match(choice, pattern)` yields under the
/// matcher's default settings.
pub uninterp spec fn skim_score(choice: Seq<char>, pattern: Seq<char>) -> Option<i64>;

/// Relies on `fuzzy_matcher::skim::SkimMatcherV2::fuzzy_match` with the
/// default matcher: the score depends on the two strings alone, and an empty
/// pattern scores `Some(0)`.
#[verifier::external_body]
fn fuzzy_score(choice: &str, pattern: &str) -> (r: Option<i64>)
    ensures
        r == skim_score(choice@, pattern@),
        pattern@.len() == 0 ==> r == Some(0i64),
{
    SkimMatcherV2::default().fuzzy_match(choice, pattern)
}

/// Only names scoring above this are offered as suggestions.
pub const SUGGEST_THRESHOLD: i128 = 20;

/// At most this many suggestions are offered.
pub const SUGGEST_LIMIT: usize = 3;

/// A missing score counts as zero.
pub open spec fn score_or_zero(s: Option<i64>) -> int {
    match s {
        Some(v) => v as int,
        None => 0,
    }
}

/// The greatest of the scores present, if any is.
pub open spec fn best_of(s: Seq<Option<i64>>) -> Option<i64>
    decreases s.len(),
{
    if s.len() == 0 {
        None
    } else {
        match (s.last(), best_of(s.drop_last())) {
            (None, rest) => rest,
            (Some(v), None) => Some(v),
            (Some(v), Some(w)) => Some(if v >= w { v } else { w }),
        }
    }
}

/// The weighted score of a skill: three times its name's match, twice its
/// id's, once its description's and once its best tag's.
pub open spec fn combined_score(
    name: Option<i64>,
    id: Option<i64>,
    desc: Option<i64>,
    tags: Seq<Option<i64>>,
) -> int {
    3 * score_or_zero(name) + 2 * score_or_zero(id) + score_or_zero(desc) + score_or_zero(
        best_of(tags),
    )
}

/// The search score of skill `s` for query `q`.
pub open spec fn skill_score(s: Skill, q: Seq<char>) -> int {
    combined_score(
        skim_score(s.name@, q),
        skim_score(s.id@, q),
        skim_score(s.description@, q),
        s.tags@.map_values(|t: String| skim_score(t@, q)),
    )
}

/// The search score of each skill of a catalog, in catalog order.
pub open spec fn skill_scores(skills: Seq<Skill>, q: Seq<char>) -> Seq<int> {
    Seq::new(skills.len(), |i: int| skill_score(skills[i], q))
}

/// The name-only score of each skill of a catalog, in catalog order.
pub open spec fn name_scores(skills: Seq<Skill>, q: Seq<char>) -> Seq<int> {
    Seq::new(skills.len(), |i: int| score_or_zero(skim_score(skills[i].name@, q)))
}

/// Combines the separate match scores of one skill into its search score.
pub fn total_score(
    name: Option<i64>,
    id: Option<i64>,
    desc: Option<i64>,
    tags: &Vec<Option<i64>>,
) -> (r: i128)
    ensures
        r as int == combined_score(name, id, desc, tags@),
{
    let mut best: Option<i64> = None;
    let mut j: usize = 0;
    while j < tags.len()
        invariant
            j <= tags@.len(),
            best == best_of(tags@.take(j as int)),
        decreases tags@.len() - j,
    {
        proof {
            assert(tags@.take(j as int + 1).drop_last() =~= tags@.take(j as int));
        }
        match (tags[j], best) {
            (None, _) => {},
            (Some(v), None) => {
                best = Some(v);
            },
            (Some(v), Some(w)) => {
                if v >= w {
                    best = Some(v);
                }
            },
        }
        j += 1;
    }
    proof {
        assert(tags@.take(tags@.len() as int) =~= tags@);
    }
    let part = |o: Option<i64>| -> (r: i128)
        ensures
            r as int == score_or_zero(o),
        {
            match o {
                Some(v) => v as i128,
                None => 0i128,
            }
        };
    3 * part(name) + 2 * part(id) + part(desc) + part(best)
}

/// Hit `a` ranks before hit `b`: a higher score, or an equal score and an
/// earlier place in the catalog.
pub open spec fn ranked_before(a: (usize, i128), b: (usize, i128)) -> bool {
    a.1 > b.1 || (a.1 == b.1 && a.0 < b.0)
}

/// `hits` lists, as (position, score) pairs, exactly the positions whose score
/// exceeds `threshold`, by score from high to low, equal scores in catalog
/// order.
pub open spec fn is_ranking(hits: Seq<(usize, i128)>, scores: Seq<int>, threshold: int) -> bool {
    &&& forall|k: int|
        0 <= k < hits.len() ==> (#[trigger] hits[k]).0 < scores.len() && hits[k].1 as int
            == scores[hits[k].0 as int] && hits[k].1 > threshold
    &&& forall|i: int|
        0 <= i < scores.len() && #[trigger] scores[i] > threshold ==> exists|k: int|
            0 <= k < hits.len() && (#[trigger] hits[k]).0 == i
    &&& forall|k1: int, k2: int|
        0 <= k1 < k2 < hits.len() ==> ranked_before(#[trigger] hits[k1], #[trigger] hits[k2])
}

/// Within a ranking, the hit at position `k` occurs nowhere else.
proof fn lemma_ranking_distinct(hits: Seq<(usize, i128)>, scores: Seq<int>, threshold: int, p: int, k: int)
    requires
        is_ranking(hits, scores, threshold),
        0 <= p < hits.len(),
        0 <= k < hits.len(),
        p != k,
    ensures
        hits[p] != hits[k],
{
    if p < k {
        assert(ranked_before(hits[p], hits[k]));
    } else {
        assert(ranked_before(hits[k], hits[p]));
    }
}

/// A hit of one ranking stands in any other ranking of the same scores.
proof fn lemma_ranking_contains(
    h1: Seq<(usize, i128)>,
    h2: Seq<(usize, i128)>,
    scores: Seq<int>,
    threshold: int,
    k: int,
) -> (p: int)
    requires
        is_ranking(h1, scores, threshold),
        is_ranking(h2, scores, threshold),
        0 <= k < h1.len(),
    ensures
        0 <= p < h2.len(),
        h2[p] == h1[k],
{
    let i = h1[k].0 as int;
    assert(scores[i] > threshold);
    let p = choose|p: int| 0 <= p < h2.len() && (#[trigger] h2[p]).0 == i;
    assert(h2[p].1 as int == scores[i]);
    p
}

proof fn lemma_ranking_agree_upto(
    h1: Seq<(usize, i128)>,
    h2: Seq<(usize, i128)>,
    scores: Seq<int>,
    threshold: int,
    k: int,
)
    requires
        is_ranking(h1, scores, threshold),
        is_ranking(h2, scores, threshold),
        0 <= k <= h1.len(),
        k <= h2.len(),
    ensures
        forall|j: int| 0 <= j < k ==> h1[j] == h2[j],
    decreases k,
{
    if k > 0 {
        let m = k - 1;
        lemma_ranking_agree_upto(h1, h2, scores, threshold, m);
        let p = lemma_ranking_contains(h1, h2, scores, threshold, m);
        let q = lemma_ranking_contains(h2, h1, scores, threshold, m);
        if p < m {
            lemma_ranking_distinct(h1, scores, threshold, p, m);
        }
        if q < m {
            lemma_ranking_distinct(h2, scores, threshold, q, m);
        }
        if p > m && q > m {
            assert(ranked_before(h2[m], h2[p]));
            assert(ranked_before(h1[m], h1[q]));
        }
    }
}

/// Scores and a threshold admit exactly one ranking, so a ranking is fully
/// determined by what `is_ranking` says of it.
pub proof fn lemma_ranking_unique(
    h1: Seq<(usize, i128)>,
    h2: Seq<(usize, i128)>,
    scores: Seq<int>,
    threshold: int,
)
    requires
        is_ranking(h1, scores, threshold),
        is_ranking(h2, scores, threshold),
    ensures
        h1 == h2,
{
    let n = if h1.len() <= h2.len() { h1.len() as int } else { h2.len() as int };
    lemma_ranking_agree_upto(h1, h2, scores, threshold, n);
    if h1.len() > h2.len() {
        let p = lemma_ranking_contains(h1, h2, scores, threshold, n);
        lemma_ranking_distinct(h1, scores, threshold, p, n);
    }
    if h2.len() > h1.len() {
        let p = lemma_ranking_contains(h2, h1, scores, threshold, n);
        lemma_ranking_distinct(h2, scores, threshold, p, n);
    }
    assert(h1 =~= h2);
}

/// Ranks the positions whose score exceeds `threshold`, highest score first;
/// equal scores keep their order.
pub fn rank(scores: &Vec<i128>, threshold: i128) -> (r: Vec<(usize, i128)>)
    ensures
        is_ranking(r@, scores@.map_values(|v: i128| v as int), threshold as int),
{
    let ghost sc = scores@.map_values(|v: i128| v as int);
    let mut out: Vec<(usize, i128)> = Vec::new();
    let mut i: usize = 0;
    while i < scores.len()
        invariant
            i <= scores@.len(),
            sc == scores@.map_values(|v: i128| v as int),
            forall|k: int|
                0 <= k < out@.len() ==> (#[trigger] out@[k]).0 < i && out@[k].1 as int
                    == sc[out@[k].0 as int] && out@[k].1 > threshold,
            forall|j: int|
                0 <= j < i && #[trigger] sc[j] > threshold ==> exists|k: int|
                    0 <= k < out@.len() && (#[trigger] out@[k]).0 == j,
            forall|k1: int, k2: int|
                0 <= k1 < k2 < out@.len() ==> ranked_before(
                    #[trigger] out@[k1],
                    #[trigger] out@[k2],
                ),
        decreases scores@.len() - i,
    {
        let s = scores[i];
        if s > threshold {
            let mut p: usize = 0;
            while p < out.len() && out[p].1 >= s
                invariant
                    p <= out@.len(),
                    forall|k: int| 0 <= k < p ==> (#[trigger] out@[k]).1 >= s,
                decreases out@.len() - p,
            {
                p += 1;
            }
            let ghost old_out = out@;
            out.insert(p, (i, s));
            proof {
                assert(forall|k: int| p <= k < old_out.len() ==> (#[trigger] old_out[k]).1 < s) by {
                    if p < old_out.len() {
                        assert(forall|k: int|
                            p < k < old_out.len() ==> ranked_before(
                                old_out[p as int],
                                #[trigger] old_out[k],
                            ));
                    }
                }
                assert forall|j: int|
                    0 <= j < i + 1 && #[trigger] sc[j] > threshold implies exists|k: int|
                        0 <= k < out@.len() && (#[trigger] out@[k]).0 == j by {
                    if j == i {
                        assert(out@[p as int].0 == j);
                    } else {
                        let k = choose|k: int| 0 <= k < old_out.len() && (#[trigger] old_out[k]).0 == j;
                        if k < p {
                            assert(out@[k].0 == j);
                        } else {
                            assert(out@[k + 1].0 == j);
                        }
                    }
                }
            }
        }
        i += 1;
    }
    out
}

/// Scores every skill of the catalog against `query`.
fn score_all(skills: &Vec<Skill>, query: &String) -> (r: Vec<i128>)
    ensures
        r@.map_values(|v: i128| v as int) =~= skill_scores(skills@, query@),
{
    let mut out: Vec<i128> = Vec::new();
    let mut i: usize = 0;
    while i < skills.len()
        invariant
            i <= skills@.len(),
            out@.len() == i,
            forall|k: int| 0 <= k < i ==> out@[k] as int == skill_score(skills@[k], query@),
        decreases skills@.len() - i,
    {
        let sk = &skills[i];
        let mut tag_scores: Vec<Option<i64>> = Vec::new();
        let mut j: usize = 0;
        while j < sk.tags.len()
            invariant
                j <= sk.tags@.len(),
                tag_scores@.len() == j,
                forall|k: int|
                    0 <= k < j ==> tag_scores@[k] == skim_score(sk.tags@[k]@, query@),
            decreases sk.tags@.len() - j,
        {
            tag_scores.push(fuzzy_score(sk.tags[j].as_str(), query.as_str()));
            j += 1;
        }
        assert(tag_scores@ =~= sk.tags@.map_values(|t: String| skim_score(t@, query@)));
        let total = total_score(
            fuzzy_score(sk.name.as_str(), query.as_str()),
            fuzzy_score(sk.id.as_str(), query.as_str()),
            fuzzy_score(sk.description.as_str(), query.as_str()),
            &tag_scores,
        );
        out.push(total);
        i += 1;
    }
    out
}

/// Ranks the catalog against `query`: every skill with a positive score, as
/// (position, score), highest score first, equal scores in catalog order.
pub fn search(skills: &Vec<Skill>, query: &String) -> (r: Vec<(usize, i128)>)
    ensures
        is_ranking(r@, skill_scores(skills@, query@), 0),
        forall|k1: int, k2: int| 0 <= k1 < k2 < r@.len() ==> r@[k1].1 >= r@[k2].1,
        forall|k: int| 0 <= k < r@.len() ==> r@[k].1 > 0,
{
    let scores = score_all(skills, query);
    let r = rank(&scores, 0);
    assert forall|k1: int, k2: int| 0 <= k1 < k2 < r@.len() implies r@[k1].1 >= r@[k2].1 by {
        assert(ranked_before(r@[k1], r@[k2]));
    }
    r
}

/// "Did you mean" hints for `name`: the names of the best-ranked skills by
/// name-only score above the suggestion threshold, at most the suggestion
/// limit of them.
pub fn suggest(skills: &Vec<Skill>, name: &String) -> (r: Vec<String>)
    ensures
        exists|h: Seq<(usize, i128)>|
            is_ranking(h, name_scores(skills@, name@), SUGGEST_THRESHOLD as int) && r@.len() == (
            if h.len() < SUGGEST_LIMIT {
                h.len()
            } else {
                SUGGEST_LIMIT as nat
            }) && forall|k: int| 0 <= k < r@.len() ==> (#[trigger] r@[k])@ == skills@[h[k].0 as int].name@,
{
    let mut scores: Vec<i128> = Vec::new();
    let mut i: usize = 0;
    while i < skills.len()
        invariant
            i <= skills@.len(),
            scores@.len() == i,
            forall|k: int| 0 <= k < i ==> scores@[k] as int == score_or_zero(skim_score(skills@[k].name@, name@)),
        decreases skills@.len() - i,
    {
        let sc = match fuzzy_score(skills[i].name.as_str(), name.as_str()) {
            Some(v) => v as i128,
            None => 0i128,
        };
        scores.push(sc);
        i += 1;
    }
    assert(scores@.map_values(|v: i128| v as int) =~= name_scores(skills@, name@));
    let hits = rank(&scores, SUGGEST_THRESHOLD);
    let mut out: Vec<String> = Vec::new();
    let mut k: usize = 0;
    while k < hits.len() && k < SUGGEST_LIMIT
        invariant
            k <= hits@.len(),
            k <= SUGGEST_LIMIT,
            out@.len() == k,
            is_ranking(hits@, name_scores(skills@, name@), SUGGEST_THRESHOLD as int),
            forall|m: int| 0 <= m < k ==> (#[trigger] out@[m])@ == skills@[hits@[m].0 as int].name@,
        decreases hits@.len() - k,
    {
        assert(hits@[k as int].0 < skills@.len());
        out.push(skills[hits[k].0].name.clone());
        k += 1;
    }
    out
}

/// Whether skill `s` is listed under `category`: every skill is when no
/// category is given, else those whose category equals it case-insensitively.
pub open spec fn in_category(s: Skill, category: Option<String>) -> bool {
    match category {
        None => true,
        Some(c) => lower_of(s.category@) == lower_of(c@),
    }
}

/// The positions, in catalog order, of the skills listed under `category`.
pub fn skills_in_category(skills: &Vec<Skill>, category: &Option<String>) -> (r: Vec<usize>)
    ensures
        forall|k: int| 0 <= k < r@.len() ==> (#[trigger] r@[k]) < skills@.len() && in_category(
            skills@[r@[k] as int],
            *category,
        ),
        forall|k1: int, k2: int| 0 <= k1 < k2 < r@.len() ==> #[trigger] r@[k1] < #[trigger] r@[k2],
        forall|i: int|
            0 <= i < skills@.len() && in_category(#[trigger] skills@[i], *category) ==> exists|k: int|
                0 <= k < r@.len() && r@[k] == i,
{
    let folded: Option<String> = match category {
        Some(c) => Some(lowercase(c.as_str())),
        None => None,
    };
    let mut out: Vec<usize> = Vec::new();
    let mut i: usize = 0;
    while i < skills.len()
        invariant
            i <= skills@.len(),
            match *category {
                Some(c) => folded matches Some(f) && f@ == lower_of(c@),
                None => folded is None,
            },
            forall|k: int| 0 <= k < out@.len() ==> (#[trigger] out@[k]) < i && in_category(
                skills@[out@[k] as int],
                *category,
            ),
            forall|k1: int, k2: int| 0 <= k1 < k2 < out@.len() ==> #[trigger] out@[k1] < #[trigger] out@[k2],
            forall|j: int|
                0 <= j < i && in_category(#[trigger] skills@[j], *category) ==> exists|k: int|
                    0 <= k < out@.len() && out@[k] == j,
        decreases skills@.len() - i,
    {
        let keep = match &folded {
            None => true,
            Some(f) => {
                let c = lowercase(skills[i].category.as_str());
                c == *f
            },
        };
        if keep {
            let ghost prev = out@;
            out.push(i);
            proof {
                assert forall|j: int|
                    0 <= j < i + 1 && in_category(#[trigger] skills@[j], *category) implies exists|k: int|
                        0 <= k < out@.len() && out@[k] == j by {
                    if j == i {
                        assert(out@[prev.len() as int] == j);
                    } else {
                        let k = choose|k: int| 0 <= k < prev.len() && prev[k] == j;
                        assert(out@[k] == j);
                    }
                }
            }
        }
        i += 1;
    }
    out
}

} // verus!
