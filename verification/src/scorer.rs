//! Keyword scorer: ranks the catalog against sanitized interest text and
//! selects the top four entries. Matching is by substring containment of
//! each interest token (three characters or longer) in the lower-cased
//! title (worth 3) and topic (worth 2); ties keep catalog order.

use vstd::prelude::*;
use vstd::relations::{sorted_by, total_ordering};
use vstd::seq_lib::lemma_sorted_unique;
use crate::catalog::{course_catalog, spec_catalog, CourseRecord, CourseView};
use crate::text::{char_is_space, chars_of, contains_sub, is_space_char, occurs};
use crate::unicode::{lower_of, lowercase};

verus! {

/// The whitespace-separated words of `s`, with `cur` the word in progress.
pub open spec fn split_words(s: Seq<char>, cur: Seq<char>) -> Seq<Seq<char>>
    decreases s.len(),
{
    if s.len() == 0 {
        if cur.len() > 0 {
            seq![cur]
        } else {
            seq![]
        }
    } else if is_space_char(s[0]) {
        if cur.len() > 0 {
            seq![cur] + split_words(s.subrange(1, s.len() as int), seq![])
        } else {
            split_words(s.subrange(1, s.len() as int), seq![])
        }
    } else {
        split_words(s.subrange(1, s.len() as int), cur.push(s[0]))
    }
}

/// Only the words of three or more characters: shorter words are noise.
pub open spec fn keep_long(ws: Seq<Seq<char>>) -> Seq<Seq<char>>
    decreases ws.len(),
{
    if ws.len() == 0 {
        ws
    } else if ws[0].len() >= 3 {
        seq![ws[0]] + keep_long(ws.subrange(1, ws.len() as int))
    } else {
        keep_long(ws.subrange(1, ws.len() as int))
    }
}

/// The scoring tokens of interest text: its words of length three or more.
pub open spec fn tokens_of(s: Seq<char>) -> Seq<Seq<char>> {
    keep_long(split_words(s, seq![]))
}

/// What one token contributes to a course's score.
pub open spec fn token_score(title_l: Seq<char>, topic_l: Seq<char>, t: Seq<char>) -> int {
    (if occurs(title_l, t) {
        3int
    } else {
        0int
    }) + (if occurs(topic_l, t) {
        2int
    } else {
        0int
    })
}

/// A course's score against a token list: the sum of the token scores.
pub open spec fn course_score(title_l: Seq<char>, topic_l: Seq<char>, toks: Seq<Seq<char>>) -> int
    decreases toks.len(),
{
    if toks.len() == 0 {
        0
    } else {
        token_score(title_l, topic_l, toks[0]) + course_score(
            title_l,
            topic_l,
            toks.subrange(1, toks.len() as int),
        )
    }
}

/// Ranking order on (score, catalog position): higher score first, earlier
/// catalog position first among equal scores.
pub open spec fn rank_leq(a: (u128, usize), b: (u128, usize)) -> bool {
    a.0 > b.0 || (a.0 == b.0 && a.1 <= b.1)
}

/// The ranking order as a relation value.
pub open spec fn rank_order() -> spec_fn((u128, usize), (u128, usize)) -> bool {
    |a: (u128, usize), b: (u128, usize)| rank_leq(a, b)
}

/// The ranking order is total: every sort by it has exactly one result.
pub proof fn lemma_rank_order_total()
    ensures
        total_ordering(rank_order()),
{
    let leq = rank_order();
    assert(vstd::relations::reflexive(leq)) by {
        assert(forall|a: (u128, usize)| #[trigger] leq(a, a));
    }
    assert(vstd::relations::antisymmetric(leq)) by {
        assert(forall|a: (u128, usize), b: (u128, usize)|
            #[trigger] leq(a, b) && #[trigger] leq(b, a) ==> a == b);
    }
    assert(vstd::relations::transitive(leq)) by {
        assert(forall|a: (u128, usize), b: (u128, usize), c: (u128, usize)|
            #[trigger] leq(a, b) && #[trigger] leq(b, c) ==> leq(a, c));
    }
    assert(vstd::relations::strongly_connected(leq)) by {
        assert(forall|a: (u128, usize), b: (u128, usize)| #[trigger] leq(a, b) || #[trigger] leq(
            b,
            a,
        ));
    }
}

/// Each catalog entry's score against the tokens of lower-cased interest
/// text `l`, paired with its catalog position.
pub open spec fn ranked_pairs(l: Seq<char>) -> Seq<(u128, usize)> {
    Seq::new(
        spec_catalog().len(),
        |i: int|
            (
                course_score(
                    lower_of(spec_catalog()[i].title),
                    lower_of(spec_catalog()[i].topic),
                    tokens_of(l),
                ) as u128,
                i as usize,
            ),
    )
}

/// The four catalog entries the scorer selects for lower-cased interest
/// text `l`: the first four after a stable sort by descending score.
pub open spec fn spec_select(l: Seq<char>) -> Seq<CourseView> {
    let sorted = ranked_pairs(l).sort_by(rank_order());
    Seq::new(4, |i: int| spec_catalog()[sorted[i].1 as int])
}

/// The interest tokens, each a word of three or more characters.
fn tokenize(v: &Vec<char>) -> (out: Vec<Vec<char>>)
    ensures
        out.deep_view() == tokens_of(v@),
{
    let mut out: Vec<Vec<char>> = Vec::new();
    let mut cur: Vec<char> = Vec::new();
    let n = v.len();
    let mut i: usize = 0;
    proof {
        assert(v@.subrange(0, v@.len() as int) =~= v@);
        assert(cur.deep_view() =~= cur@);
        assert(out.deep_view() + keep_long(split_words(v@, cur@)) =~= keep_long(
            split_words(v@, seq![]),
        ));
    }
    while i < n
        invariant
            n == v@.len(),
            i <= n,
            out.deep_view() + keep_long(split_words(v@.subrange(i as int, n as int), cur@))
                == tokens_of(v@),
        decreases n - i,
    {
        let ghost tail = v@.subrange(i as int, n as int);
        let ghost od = out.deep_view();
        let ghost oc = cur@;
        proof {
            assert(tail.subrange(1, tail.len() as int) =~= v@.subrange(i as int + 1, n as int));
        }
        let c = v[i];
        if char_is_space(c) {
            let ghost rest = split_words(v@.subrange(i as int + 1, n as int), seq![]);
            proof {
                if oc.len() > 0 {
                    lemma_keep_long_cons(oc, rest);
                } else {
                    assert(oc =~= Seq::<char>::empty());
                }
            }
            if cur.len() >= 3 {
                out.push(cur);
                cur = Vec::new();
                proof {
                    assert(out.deep_view() =~~= od.push(oc));
                    assert(od + (seq![oc] + keep_long(rest)) =~= od.push(oc) + keep_long(rest));
                }
            } else if cur.len() > 0 {
                cur = Vec::new();
            }
        } else {
            cur.push(c);
            proof {
                assert(cur@ =~= oc.push(c));
            }
        }
        i = i + 1;
        proof {
            assert(cur.deep_view() =~= cur@);
        }
    }
    proof {
        assert(v@.subrange(i as int, n as int) =~= Seq::<char>::empty());
    }
    let ghost od = out.deep_view();
    let ghost oc = cur@;
    if cur.len() >= 3 {
        proof {
            lemma_keep_long_cons(oc, seq![]);
            assert(keep_long(seq![]) =~= Seq::<Seq<char>>::empty());
        }
        out.push(cur);
        proof {
            assert(out.deep_view() =~~= od.push(oc));
            assert(od + (seq![oc] + Seq::<Seq<char>>::empty()) =~= od.push(oc));
        }
    } else {
        proof {
            if oc.len() > 0 {
                lemma_keep_long_cons(oc, seq![]);
                assert(keep_long(seq![]) =~= Seq::<Seq<char>>::empty());
                assert(od + keep_long(seq![oc]) =~= od);
            } else {
                assert(od + keep_long(split_words(Seq::<char>::empty(), oc)) =~= od);
            }
        }
    }
    out
}

proof fn lemma_keep_long_cons(x: Seq<char>, r: Seq<Seq<char>>)
    ensures
        x.len() >= 3 ==> keep_long(seq![x] + r) == seq![x] + keep_long(r),
        x.len() < 3 ==> keep_long(seq![x] + r) == keep_long(r),
{
    assert((seq![x] + r).subrange(1, (seq![x] + r).len() as int) =~= r);
    assert((seq![x] + r)[0] == x);
}

/// A course's score against the token list.
fn score_course(title_l: &Vec<char>, topic_l: &Vec<char>, toks: &Vec<Vec<char>>) -> (s: u128)
    ensures
        s as int == course_score(title_l@, topic_l@, toks.deep_view()),
{
    let ghost ts = toks.deep_view();
    let n = toks.len();
    let mut s: u128 = 0;
    let mut j: usize = 0;
    proof {
        assert(ts.subrange(0, ts.len() as int) =~= ts);
    }
    while j < n
        invariant
            n == toks@.len(),
            ts == toks.deep_view(),
            ts.len() == n,
            j <= n,
            s <= 5 * (j as int),
            s as int + course_score(title_l@, topic_l@, ts.subrange(j as int, n as int))
                == course_score(title_l@, topic_l@, ts),
        decreases n - j,
    {
        let ghost tail = ts.subrange(j as int, n as int);
        proof {
            assert(tail.subrange(1, tail.len() as int) =~= ts.subrange(j as int + 1, n as int));
            assert(tail[0] == ts[j as int]);
        }
        let t = &toks[j];
        proof {
            assert(t@ =~= ts[j as int]);
        }
        let mut add: u128 = 0;
        if contains_sub(title_l, t) {
            add = add + 3;
        }
        if contains_sub(topic_l, t) {
            add = add + 2;
        }
        proof {
            assert(add as int == token_score(title_l@, topic_l@, ts[j as int]));
        }
        s = s + add;
        j = j + 1;
    }
    proof {
        assert(ts.subrange(j as int, n as int) =~= Seq::<Seq<char>>::empty());
    }
    s
}

/// Inserts `x` into a ranked list, keeping the ranking order; equal keys
/// cannot arise because catalog positions are distinct, but insertion after
/// any equal key keeps the earlier element first regardless.
fn insert_ranked(out: &mut Vec<(u128, usize)>, x: (u128, usize))
    requires
        sorted_by(old(out)@, rank_order()),
    ensures
        sorted_by(final(out)@, rank_order()),
        final(out)@.to_multiset() == old(out)@.to_multiset().insert(x),
        final(out)@.len() == old(out)@.len() + 1,
{
    let n = out.len();
    let mut r: Vec<(u128, usize)> = Vec::new();
    let mut i: usize = 0;
    while i < n && (out[i].0 > x.0 || (out[i].0 == x.0 && out[i].1 <= x.1))
        invariant
            n == out@.len(),
            i <= n,
            r@ == out@.subrange(0, i as int),
            forall|k: int| 0 <= k < i ==> rank_leq(#[trigger] out@[k], x),
        decreases n - i,
    {
        r.push(out[i]);
        i = i + 1;
        proof {
            assert(r@ =~= out@.subrange(0, i as int));
        }
    }
    let ghost pos = i as int;
    proof {
        assert(pos == n || !rank_leq(out@[pos], x));
    }
    r.push(x);
    let mut j: usize = i;
    while j < n
        invariant
            n == out@.len(),
            i <= j <= n,
            r@ == out@.subrange(0, i as int) + seq![x] + out@.subrange(i as int, j as int),
        decreases n - j,
    {
        r.push(out[j]);
        j = j + 1;
        proof {
            assert(r@ =~= out@.subrange(0, i as int) + seq![x] + out@.subrange(
                i as int,
                j as int,
            ));
        }
    }
    proof {
        let old_v = out@;
        let new_v = r@;
        assert(new_v =~= old_v.insert(pos, x));
        vstd::seq_lib::to_multiset_insert(old_v, pos, x);
        let leq = rank_order();
        assert forall|p: int, q: int| 0 <= p < q < new_v.len() implies leq(new_v[p], new_v[q]) by {
            if q < pos {
                assert(new_v[p] == old_v[p] && new_v[q] == old_v[q]);
            } else if q == pos {
                assert(new_v[q] == x && new_v[p] == old_v[p]);
                assert(rank_leq(old_v[p], x));
            } else {
                assert(new_v[q] == old_v[q - 1]);
                if p < pos {
                    assert(new_v[p] == old_v[p]);
                    if q - 1 > p {
                        assert(leq(old_v[p], old_v[q - 1]));
                    }
                } else if p == pos {
                    assert(new_v[p] == x);
                    assert(!rank_leq(old_v[pos], x));
                    assert(rank_leq(x, old_v[pos]));
                    if q - 1 > pos {
                        assert(leq(old_v[pos], old_v[q - 1]));
                    }
                } else {
                    assert(new_v[p] == old_v[p - 1]);
                    assert(leq(old_v[p - 1], old_v[q - 1]));
                }
            }
        }
    }
    *out = r;
}

/// Scores every catalog entry against the sanitized interest text and
/// returns the four best: a stable sort by descending score (catalog order
/// breaks ties), then the first four, whatever their scores.
pub fn select_courses_by_keywords(interests: &str) -> (r: Vec<CourseRecord>)
    ensures
        r@.len() == 4,
        forall|i: int| 0 <= i < 4 ==> (#[trigger] r@[i])@ == spec_select(lower_of(interests@))[i],
{
    let ghost l = lower_of(interests@);
    let lowered = lowercase(interests);
    let lv = chars_of(lowered.as_str());
    let toks = tokenize(&lv);
    let catalog = course_catalog();
    let mut pairs: Vec<(u128, usize)> = Vec::new();
    let n = catalog.len();
    let mut i: usize = 0;
    while i < n
        invariant
            n == catalog@.len(),
            n == spec_catalog().len(),
            forall|k: int| 0 <= k < n ==> (#[trigger] catalog@[k])@ == spec_catalog()[k],
            toks.deep_view() == tokens_of(l),
            i <= n,
            pairs@.len() == i,
            forall|k: int| 0 <= k < i ==> #[trigger] pairs@[k] == ranked_pairs(l)[k],
        decreases n - i,
    {
        let title_l = lowercase(catalog[i].title.as_str());
        let topic_l = lowercase(catalog[i].topic.as_str());
        let tlv = chars_of(title_l.as_str());
        let tov = chars_of(topic_l.as_str());
        let s = score_course(&tlv, &tov, &toks);
        pairs.push((s, i));
        proof {
            assert(0 <= course_score(
                lower_of(spec_catalog()[i as int].title),
                lower_of(spec_catalog()[i as int].topic),
                tokens_of(l),
            )) by {
                lemma_course_score_bounds(
                    lower_of(spec_catalog()[i as int].title),
                    lower_of(spec_catalog()[i as int].topic),
                    tokens_of(l),
                );
            }
            assert(pairs@[i as int] == ranked_pairs(l)[i as int]);
        }
        i = i + 1;
    }
    let mut sorted: Vec<(u128, usize)> = Vec::new();
    let mut j: usize = 0;
    proof {
        assert(pairs@.subrange(0, 0) =~= Seq::<(u128, usize)>::empty());
        vstd::seq_lib::lemma_multiset_commutative(
            Seq::<(u128, usize)>::empty(),
            Seq::<(u128, usize)>::empty(),
        );
        assert(Seq::<(u128, usize)>::empty().to_multiset() =~= sorted@.to_multiset());
    }
    while j < n
        invariant
            n == pairs@.len(),
            j <= n,
            sorted_by(sorted@, rank_order()),
            sorted@.to_multiset() == pairs@.subrange(0, j as int).to_multiset(),
            sorted@.len() == j,
        decreases n - j,
    {
        let ghost before = pairs@.subrange(0, j as int);
        proof {
            assert(pairs@.subrange(0, j as int + 1) =~= before.push(pairs@[j as int]));
            vstd::seq_lib::to_multiset_build(before, pairs@[j as int]);
        }
        insert_ranked(&mut sorted, pairs[j]);
        j = j + 1;
    }
    proof {
        assert(pairs@.subrange(0, n as int) =~= pairs@);
        assert(pairs@ =~= ranked_pairs(l));
        lemma_rank_order_total();
        ranked_pairs(l).lemma_sort_by_ensures(rank_order());
        lemma_sorted_unique(sorted@, ranked_pairs(l).sort_by(rank_order()), rank_order());
        assert(sorted@ == ranked_pairs(l).sort_by(rank_order()));
        assert forall|k: int| 0 <= k < sorted@.len() implies (#[trigger] sorted@[k]).1 < n by {
            let ms = ranked_pairs(l).to_multiset();
            vstd::seq_lib::to_multiset_contains(sorted@, sorted@[k]);
            vstd::seq_lib::to_multiset_contains(ranked_pairs(l), sorted@[k]);
            assert(sorted@.contains(sorted@[k]));
            assert(ranked_pairs(l).contains(sorted@[k]));
            let w = choose|w: int| 0 <= w < ranked_pairs(l).len() && ranked_pairs(l)[w]
                == sorted@[k];
            assert(ranked_pairs(l)[w].1 == w as usize);
        }
    }
    let mut r: Vec<CourseRecord> = Vec::new();
    let mut k: usize = 0;
    while k < 4
        invariant
            sorted@ == ranked_pairs(l).sort_by(rank_order()),
            sorted@.len() == n,
            n == spec_catalog().len(),
            n == catalog@.len(),
            forall|m: int| 0 <= m < n ==> (#[trigger] catalog@[m])@ == spec_catalog()[m],
            forall|m: int| 0 <= m < sorted@.len() ==> (#[trigger] sorted@[m]).1 < n,
            k <= 4,
            r@.len() == k,
            forall|m: int| 0 <= m < k ==> (#[trigger] r@[m])@ == spec_select(l)[m],
        decreases 4 - k,
    {
        let idx = sorted[k].1;
        r.push(catalog[idx].duplicate());
        k = k + 1;
    }
    r
}

/// Scores are non-negative and at most five per token.
pub proof fn lemma_course_score_bounds(title_l: Seq<char>, topic_l: Seq<char>, toks: Seq<Seq<char>>)
    ensures
        0 <= course_score(title_l, topic_l, toks) <= 5 * toks.len(),
    decreases toks.len(),
{
    if toks.len() > 0 {
        lemma_course_score_bounds(title_l, topic_l, toks.subrange(1, toks.len() as int));
    }
}

/// The selection depends on the interest text only through its scoring
/// tokens. Words shorter than three characters never become tokens, so two
/// texts that differ only in such words select the same courses.
pub proof fn lemma_selection_depends_on_tokens(l1: Seq<char>, l2: Seq<char>)
    requires
        tokens_of(l1) == tokens_of(l2),
    ensures
        spec_select(l1) == spec_select(l2),
{
    assert(ranked_pairs(l1) =~= ranked_pairs(l2));
    assert(spec_select(l1) =~= spec_select(l2));
}

/// Words shorter than three characters never influence the selection: when
/// every word of the interest text is that short, no token survives, every
/// course scores zero, and the selection is the first four catalog entries
/// in catalog order.
pub proof fn lemma_short_words_keep_catalog_order(l: Seq<char>)
    requires
        forall|w: Seq<char>| split_words(l, seq![]).contains(w) ==> w.len() < 3,
    ensures
        tokens_of(l).len() == 0,
        forall|i: int| 0 <= i < 4 ==> spec_select(l)[i] == spec_catalog()[i],
{
    lemma_keep_long_none(split_words(l, seq![]));
    lemma_zero_scores_catalog_order(l);
}

proof fn lemma_keep_long_none(ws: Seq<Seq<char>>)
    requires
        forall|w: Seq<char>| ws.contains(w) ==> w.len() < 3,
    ensures
        keep_long(ws).len() == 0,
    decreases ws.len(),
{
    if ws.len() > 0 {
        let rest = ws.subrange(1, ws.len() as int);
        assert(ws.contains(ws[0]));
        assert forall|w: Seq<char>| rest.contains(w) implies w.len() < 3 by {
            let i = choose|i: int| 0 <= i < rest.len() && rest[i] == w;
            assert(ws[i + 1] == w);
            assert(ws.contains(w));
        }
        lemma_keep_long_none(rest);
    }
}

/// With no tokens at all, every course scores zero and the ranked pairs are
/// already in catalog order, so the sort leaves them alone.
proof fn lemma_zero_scores_catalog_order(l: Seq<char>)
    requires
        tokens_of(l).len() == 0,
    ensures
        forall|i: int| 0 <= i < 4 ==> spec_select(l)[i] == spec_catalog()[i],
{
    let pairs = ranked_pairs(l);
    let leq = rank_order();
    assert(forall|i: int| 0 <= i < pairs.len() ==> #[trigger] pairs[i] == (0u128, i as usize));
    assert forall|p: int, q: int| 0 <= p < q < pairs.len() implies leq(pairs[p], pairs[q]) by {
        assert(pairs[p] == (0u128, p as usize));
        assert(pairs[q] == (0u128, q as usize));
    }
    assert(sorted_by(pairs, leq));
    lemma_rank_order_total();
    pairs.lemma_sort_by_ensures(leq);
    lemma_sorted_unique(pairs, pairs.sort_by(leq), leq);
    assert(pairs.sort_by(leq) == pairs);
    assert forall|i: int| 0 <= i < 4 implies spec_select(l)[i] == spec_catalog()[i] by {
        assert(pairs[i].1 == i as usize);
    }
}

} // verus!
