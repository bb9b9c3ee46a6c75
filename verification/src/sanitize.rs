//! Input sanitizer: free-text interests are truncated, stripped of markup
//! and control characters, cleared of prompt-injection phrases, and trimmed
//! before they reach the scorer or any outbound prompt.

use vstd::prelude::*;
use crate::text::{
    chars_of, char_is_control, contains_sub, is_control_char, is_space_char, occurs, remove_all,
    remove_all_exec, lemma_remove_all_absent, lemma_remove_all_chars, lemma_remove_all_len,
    lemma_remove_all_shortens, lemma_trim_keeps_missing, spec_trim, trim_chars,
    lemma_trim_trimmed, lemma_trim_idempotent, lemma_trim_within, string_of,
};
use vstd::string::StrSliceExecFns;

verus! {

/// A character the sanitizer keeps: not a control character and not an
/// HTML angle bracket.
pub open spec fn keep_char(c: char) -> bool {
    !is_control_char(c) && c != '<' && c != '>'
}

/// The first 200 characters of `s` (all of it when shorter).
pub open spec fn truncated(s: Seq<char>) -> Seq<char> {
    if s.len() <= 200 {
        s
    } else {
        s.subrange(0, 200)
    }
}

/// `s` with every character the sanitizer rejects deleted.
pub open spec fn filter_kept(s: Seq<char>) -> Seq<char>
    decreases s.len(),
{
    if s.len() == 0 {
        s
    } else if keep_char(s[0]) {
        seq![s[0]] + filter_kept(s.subrange(1, s.len() as int))
    } else {
        filter_kept(s.subrange(1, s.len() as int))
    }
}

/// The prompt-injection phrases removed from interest text, in the order
/// they are removed.
pub open spec fn banned_patterns() -> Seq<Seq<char>> {
    seq![
        "ignore previous"@,
        "ignore all"@,
        "system:"@,
        "assistant:"@,
        "user:"@,
        "```"@,
    ]
}

/// `s` after one removal pass for each banned phrase, in order.
pub open spec fn remove_banned(s: Seq<char>) -> Seq<char> {
    remove_all(
        remove_all(
            remove_all(
                remove_all(remove_all(remove_all(s, "ignore previous"@), "ignore all"@), "system:"@),
                "assistant:"@,
            ),
            "user:"@,
        ),
        "```"@,
    )
}

/// No banned phrase occurs anywhere in `s`.
pub open spec fn banned_free(s: Seq<char>) -> bool {
    forall|k: int| 0 <= k < banned_patterns().len() ==> !occurs(s, #[trigger] banned_patterns()[k])
}

/// Removal passes repeated until no banned phrase remains. One pass can
/// splice a new occurrence together out of a deletion's neighbours, so a
/// single pass is not enough; a pass that still finds something strictly
/// shortens the text, so the repetition terminates.
pub open spec fn sanitize_removals(s: Seq<char>) -> Seq<char>
    decreases s.len(),
{
    let once = remove_banned(s);
    if banned_free(once) || once.len() >= s.len() {
        once
    } else {
        sanitize_removals(once)
    }
}

/// The sanitized form of raw interest text: truncate to 200 characters,
/// drop control characters and angle brackets, delete the banned phrases
/// until none is left, then trim surrounding whitespace.
pub open spec fn spec_sanitize(s: Seq<char>) -> Seq<char> {
    spec_trim(sanitize_removals(filter_kept(truncated(s))))
}

proof fn lemma_filter_kept_within(s: Seq<char>)
    ensures
        filter_kept(s).len() <= s.len(),
        forall|i: int| 0 <= i < filter_kept(s).len() ==> keep_char(#[trigger] filter_kept(s)[i]),
    decreases s.len(),
{
    if s.len() == 0 {
    } else {
        let rest = s.subrange(1, s.len() as int);
        lemma_filter_kept_within(rest);
        if keep_char(s[0]) {
            let r = seq![s[0]] + filter_kept(rest);
            assert forall|i: int| 0 <= i < r.len() implies keep_char(r[i]) by {
                if i > 0 {
                    assert(r[i] == filter_kept(rest)[i - 1]);
                }
            }
        }
    }
}

proof fn lemma_filter_kept_id(s: Seq<char>)
    requires
        forall|i: int| 0 <= i < s.len() ==> keep_char(#[trigger] s[i]),
    ensures
        filter_kept(s) == s,
    decreases s.len(),
{
    if s.len() == 0 {
    } else {
        let rest = s.subrange(1, s.len() as int);
        lemma_filter_kept_id(rest);
        assert(seq![s[0]] + rest =~= s);
    }
}

proof fn lemma_remove_banned_len(s: Seq<char>)
    ensures
        remove_banned(s).len() <= s.len(),
{
    let s1 = remove_all(s, "ignore previous"@);
    let s2 = remove_all(s1, "ignore all"@);
    let s3 = remove_all(s2, "system:"@);
    let s4 = remove_all(s3, "assistant:"@);
    let s5 = remove_all(s4, "user:"@);
    lemma_remove_all_len(s, "ignore previous"@);
    lemma_remove_all_len(s1, "ignore all"@);
    lemma_remove_all_len(s2, "system:"@);
    lemma_remove_all_len(s3, "assistant:"@);
    lemma_remove_all_len(s4, "user:"@);
    lemma_remove_all_len(s5, "```"@);
}

proof fn lemma_remove_banned_chars(s: Seq<char>)
    requires
        forall|i: int| 0 <= i < s.len() ==> keep_char(#[trigger] s[i]),
    ensures
        forall|j: int| 0 <= j < remove_banned(s).len() ==> keep_char(#[trigger] remove_banned(s)[j]),
{
    let f = |c: char| keep_char(c);
    let s1 = remove_all(s, "ignore previous"@);
    let s2 = remove_all(s1, "ignore all"@);
    let s3 = remove_all(s2, "system:"@);
    let s4 = remove_all(s3, "assistant:"@);
    let s5 = remove_all(s4, "user:"@);
    lemma_remove_all_chars(s, "ignore previous"@, f);
    lemma_remove_all_chars(s1, "ignore all"@, f);
    lemma_remove_all_chars(s2, "system:"@, f);
    lemma_remove_all_chars(s3, "assistant:"@, f);
    lemma_remove_all_chars(s4, "user:"@, f);
    lemma_remove_all_chars(s5, "```"@, f);
}

proof fn lemma_banned_free_unfold(s: Seq<char>)
    ensures
        banned_free(s) <==> (!occurs(s, "ignore previous"@) && !occurs(s, "ignore all"@) && !occurs(
            s,
            "system:"@,
        ) && !occurs(s, "assistant:"@) && !occurs(s, "user:"@) && !occurs(s, "```"@)),
{
    assert(banned_patterns()[0] == "ignore previous"@);
    assert(banned_patterns()[1] == "ignore all"@);
    assert(banned_patterns()[2] == "system:"@);
    assert(banned_patterns()[3] == "assistant:"@);
    assert(banned_patterns()[4] == "user:"@);
    assert(banned_patterns()[5] == "```"@);
    if !occurs(s, "ignore previous"@) && !occurs(s, "ignore all"@) && !occurs(s, "system:"@)
        && !occurs(s, "assistant:"@) && !occurs(s, "user:"@) && !occurs(s, "```"@) {
        assert forall|k: int| 0 <= k < banned_patterns().len() implies !occurs(
            s,
            #[trigger] banned_patterns()[k],
        ) by {
            if k == 0 {
            } else if k == 1 {
            } else if k == 2 {
            } else if k == 3 {
            } else if k == 4 {
            } else {
                assert(k == 5);
            }
        }
    }
}

/// A removal pass that does not shorten the text found nothing: the text is
/// already free of every banned phrase, and the pass left it unchanged.
proof fn lemma_remove_banned_stall(s: Seq<char>)
    requires
        remove_banned(s).len() >= s.len(),
    ensures
        remove_banned(s) == s,
        banned_free(s),
{
    reveal_strlit("ignore previous");
    reveal_strlit("ignore all");
    reveal_strlit("system:");
    reveal_strlit("assistant:");
    reveal_strlit("user:");
    reveal_strlit("```");
    let s1 = remove_all(s, "ignore previous"@);
    let s2 = remove_all(s1, "ignore all"@);
    let s3 = remove_all(s2, "system:"@);
    let s4 = remove_all(s3, "assistant:"@);
    let s5 = remove_all(s4, "user:"@);
    let s6 = remove_all(s5, "```"@);
    lemma_remove_all_len(s, "ignore previous"@);
    lemma_remove_all_len(s1, "ignore all"@);
    lemma_remove_all_len(s2, "system:"@);
    lemma_remove_all_len(s3, "assistant:"@);
    lemma_remove_all_len(s4, "user:"@);
    lemma_remove_all_len(s5, "```"@);
    assert(!occurs(s, "ignore previous"@)) by {
        if occurs(s, "ignore previous"@) {
            lemma_remove_all_shortens(s, "ignore previous"@);
        }
    }
    lemma_remove_all_absent(s, "ignore previous"@);
    assert(!occurs(s1, "ignore all"@)) by {
        if occurs(s1, "ignore all"@) {
            lemma_remove_all_shortens(s1, "ignore all"@);
        }
    }
    lemma_remove_all_absent(s1, "ignore all"@);
    assert(!occurs(s2, "system:"@)) by {
        if occurs(s2, "system:"@) {
            lemma_remove_all_shortens(s2, "system:"@);
        }
    }
    lemma_remove_all_absent(s2, "system:"@);
    assert(!occurs(s3, "assistant:"@)) by {
        if occurs(s3, "assistant:"@) {
            lemma_remove_all_shortens(s3, "assistant:"@);
        }
    }
    lemma_remove_all_absent(s3, "assistant:"@);
    assert(!occurs(s4, "user:"@)) by {
        if occurs(s4, "user:"@) {
            lemma_remove_all_shortens(s4, "user:"@);
        }
    }
    lemma_remove_all_absent(s4, "user:"@);
    assert(!occurs(s5, "```"@)) by {
        if occurs(s5, "```"@) {
            lemma_remove_all_shortens(s5, "```"@);
        }
    }
    lemma_remove_all_absent(s5, "```"@);
    assert(s6 == s);
    lemma_banned_free_unfold(s);
}

/// The repeated removal leaves no banned phrase behind.
pub proof fn lemma_sanitize_removals_banned_free(s: Seq<char>)
    ensures
        banned_free(sanitize_removals(s)),
    decreases s.len(),
{
    let once = remove_banned(s);
    if banned_free(once) {
    } else if once.len() >= s.len() {
        lemma_remove_banned_len(s);
        lemma_remove_banned_stall(s);
        assert(false);
    } else {
        lemma_sanitize_removals_banned_free(once);
    }
}

proof fn lemma_sanitize_removals_len(s: Seq<char>)
    ensures
        sanitize_removals(s).len() <= s.len(),
    decreases s.len(),
{
    let once = remove_banned(s);
    lemma_remove_banned_len(s);
    if banned_free(once) || once.len() >= s.len() {
    } else {
        lemma_sanitize_removals_len(once);
    }
}

proof fn lemma_sanitize_removals_chars(s: Seq<char>)
    requires
        forall|i: int| 0 <= i < s.len() ==> keep_char(#[trigger] s[i]),
    ensures
        forall|j: int|
            0 <= j < sanitize_removals(s).len() ==> keep_char(#[trigger] sanitize_removals(s)[j]),
    decreases s.len(),
{
    let once = remove_banned(s);
    lemma_remove_banned_len(s);
    lemma_remove_banned_chars(s);
    if banned_free(once) || once.len() >= s.len() {
    } else {
        lemma_sanitize_removals_chars(once);
        assert(sanitize_removals(s) == sanitize_removals(once));
        assert forall|j: int| 0 <= j < sanitize_removals(s).len() implies keep_char(
            sanitize_removals(s)[j],
        ) by {
            assert(keep_char(sanitize_removals(once)[j]));
        }
    }
}

/// On text already free of every banned phrase, the removal is the
/// identity.
proof fn lemma_sanitize_removals_of_free(s: Seq<char>)
    requires
        banned_free(s),
    ensures
        sanitize_removals(s) == s,
{
    lemma_banned_free_unfold(s);
    let s1 = remove_all(s, "ignore previous"@);
    lemma_remove_all_absent(s, "ignore previous"@);
    lemma_remove_all_absent(s1, "ignore all"@);
    lemma_remove_all_absent(s1, "system:"@);
    lemma_remove_all_absent(s1, "assistant:"@);
    lemma_remove_all_absent(s1, "user:"@);
    lemma_remove_all_absent(s1, "```"@);
    assert(remove_banned(s) == s);
}

/// Sanitized text is at most 200 characters, free of control characters and
/// angle brackets, and carries no surrounding whitespace.
pub proof fn lemma_sanitize_clean(x: Seq<char>)
    ensures
        spec_sanitize(x).len() <= 200,
        forall|i: int| 0 <= i < spec_sanitize(x).len() ==> keep_char(#[trigger] spec_sanitize(x)[i]),
        spec_sanitize(x).len() > 0 ==> !is_space_char(spec_sanitize(x)[0]),
        spec_sanitize(x).len() > 0 ==> !is_space_char(
            spec_sanitize(x)[spec_sanitize(x).len() - 1],
        ),
        banned_free(spec_sanitize(x)),
{
    let t = truncated(x);
    let f = filter_kept(t);
    let b = sanitize_removals(f);
    lemma_filter_kept_within(t);
    lemma_sanitize_removals_len(f);
    lemma_sanitize_removals_chars(f);
    assert(forall|j: int| 0 <= j < b.len() ==> keep_char(#[trigger] b[j]));
    lemma_trim_within(b, |c: char| keep_char(c));
    lemma_trim_trimmed(b);
    lemma_sanitize_removals_banned_free(f);
    assert forall|k: int| 0 <= k < banned_patterns().len() implies !occurs(
        spec_trim(b),
        #[trigger] banned_patterns()[k],
    ) by {
        assert(!occurs(b, banned_patterns()[k]));
        lemma_trim_keeps_missing(b, banned_patterns()[k]);
    }
}

/// Sanitizing is idempotent: the sanitized form carries no banned phrase,
/// nothing to truncate, filter or trim, so a second pass changes nothing.
pub proof fn lemma_sanitize_idempotent(x: Seq<char>)
    ensures
        spec_sanitize(spec_sanitize(x)) == spec_sanitize(x),
{
    let y = spec_sanitize(x);
    lemma_sanitize_clean(x);
    assert(truncated(y) == y);
    lemma_filter_kept_id(y);
    lemma_sanitize_removals_of_free(y);
    lemma_trim_idempotent(sanitize_removals(filter_kept(truncated(x))));
}

/// Cleans raw interest text: truncates to 200 characters, removes control
/// characters and `<`/`>`, deletes the prompt-injection phrases until none
/// remains, and trims whitespace. Total: every input yields a (possibly
/// empty) clean string.
pub fn sanitize_input(input: &str) -> (r: String)
    ensures
        r@ == spec_sanitize(input@),
        r@.len() <= 200,
        forall|i: int| 0 <= i < r@.len() ==> keep_char(#[trigger] r@[i]),
        r@.len() > 0 ==> !is_space_char(r@[0]) && !is_space_char(r@[r@.len() - 1]),
        banned_free(r@),
{
    let n = input.unicode_len();
    let cut = if n > 200 {
        200
    } else {
        n
    };
    let t = input.substring_char(0, cut);
    proof {
        assert(t@ == truncated(input@));
    }
    let v = chars_of(t);
    let v = filter_kept_exec(&v);
    let v = sanitize_removals_exec(v);
    let v = trim_chars(&v);
    let r = string_of(&v);
    proof {
        lemma_sanitize_clean(input@);
    }
    r
}

/// One removal pass: each banned phrase deleted once, in order.
fn remove_banned_exec(v: &Vec<char>) -> (r: Vec<char>)
    ensures
        r@ == remove_banned(v@),
{
    let p1 = chars_of("ignore previous");
    let p2 = chars_of("ignore all");
    let p3 = chars_of("system:");
    let p4 = chars_of("assistant:");
    let p5 = chars_of("user:");
    let p6 = chars_of("```");
    proof {
        reveal_strlit("ignore previous");
        reveal_strlit("ignore all");
        reveal_strlit("system:");
        reveal_strlit("assistant:");
        reveal_strlit("user:");
        reveal_strlit("```");
    }
    let r = remove_all_exec(v, &p1);
    let r = remove_all_exec(&r, &p2);
    let r = remove_all_exec(&r, &p3);
    let r = remove_all_exec(&r, &p4);
    let r = remove_all_exec(&r, &p5);
    let r = remove_all_exec(&r, &p6);
    r
}

/// Whether no banned phrase occurs anywhere in `v`.
fn banned_free_exec(v: &Vec<char>) -> (b: bool)
    ensures
        b == banned_free(v@),
{
    let p1 = chars_of("ignore previous");
    let p2 = chars_of("ignore all");
    let p3 = chars_of("system:");
    let p4 = chars_of("assistant:");
    let p5 = chars_of("user:");
    let p6 = chars_of("```");
    let b = !contains_sub(v, &p1) && !contains_sub(v, &p2) && !contains_sub(v, &p3)
        && !contains_sub(v, &p4) && !contains_sub(v, &p5) && !contains_sub(v, &p6);
    proof {
        lemma_banned_free_unfold(v@);
    }
    b
}

/// Runs removal passes until none of the banned phrases is left.
fn sanitize_removals_exec(v: Vec<char>) -> (r: Vec<char>)
    ensures
        r@ == sanitize_removals(v@),
{
    let ghost init = v@;
    let mut cur = v;
    loop
        invariant
            init == v@,
            sanitize_removals(init) == sanitize_removals(cur@),
        decreases cur@.len(),
    {
        let once = remove_banned_exec(&cur);
        let free = banned_free_exec(&once);
        if free || once.len() >= cur.len() {
            proof {
                assert(sanitize_removals(cur@) == once@);
            }
            return once;
        }
        proof {
            assert(sanitize_removals(cur@) == sanitize_removals(once@));
        }
        cur = once;
    }
}

/// `v` with every rejected character deleted.
fn filter_kept_exec(v: &Vec<char>) -> (r: Vec<char>)
    ensures
        r@ == filter_kept(v@),
{
    let mut r: Vec<char> = Vec::new();
    let n = v.len();
    let mut i: usize = 0;
    proof {
        assert(v@.subrange(0, v@.len() as int) =~= v@);
        assert(Seq::<char>::empty() + filter_kept(v@) =~= filter_kept(v@));
    }
    while i < n
        invariant
            n == v@.len(),
            i <= n,
            filter_kept(v@) == r@ + filter_kept(v@.subrange(i as int, v@.len() as int)),
        decreases n - i,
    {
        let ghost pre = r@;
        let ghost tail = v@.subrange(i as int, v@.len() as int);
        proof {
            assert(tail.subrange(1, tail.len() as int) =~= v@.subrange(
                i as int + 1,
                v@.len() as int,
            ));
            if keep_char(v@[i as int]) {
                assert(pre + (seq![v@[i as int]] + filter_kept(
                    v@.subrange(i as int + 1, v@.len() as int),
                )) =~= pre.push(v@[i as int]) + filter_kept(
                    v@.subrange(i as int + 1, v@.len() as int),
                ));
            }
        }
        let c = v[i];
        if !(char_is_control(c) || c == '<' || c == '>') {
            r.push(c);
        }
        i = i + 1;
    }
    proof {
        assert(v@.subrange(i as int, v@.len() as int) =~= Seq::<char>::empty());
        assert(r@ + Seq::<char>::empty() =~= r@);
    }
    r
}

} // verus!
