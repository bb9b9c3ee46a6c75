//! Character-level text utilities: classification of characters, conversion
//! between `&str` and `Vec<char>`, substring search, pattern removal and
//! whitespace trimming, all specified over `Seq<char>`.

use vstd::prelude::*;
use vstd::string::StrSliceExecFns;

verus! {

/// A character of the Unicode `Cc` category (the C0 and C1 control blocks).
pub open spec fn is_control_char(c: char) -> bool {
    (c as u32) < 0x20 || (0x7F <= c as u32 && c as u32 <= 0x9F)
}

/// A character with the Unicode `White_Space` property.
pub open spec fn is_space_char(c: char) -> bool {
    ||| (0x09 <= c as u32 && c as u32 <= 0x0D)
    ||| c as u32 == 0x20
    ||| c as u32 == 0x85
    ||| c as u32 == 0xA0
    ||| c as u32 == 0x1680
    ||| (0x2000 <= c as u32 && c as u32 <= 0x200A)
    ||| c as u32 == 0x2028
    ||| c as u32 == 0x2029
    ||| c as u32 == 0x202F
    ||| c as u32 == 0x205F
    ||| c as u32 == 0x3000
}

pub fn char_is_control(c: char) -> (b: bool)
    ensures
        b == is_control_char(c),
{
    let u = c as u32;
    u < 0x20 || (0x7F <= u && u <= 0x9F)
}

pub fn char_is_space(c: char) -> (b: bool)
    ensures
        b == is_space_char(c),
{
    let u = c as u32;
    (0x09 <= u && u <= 0x0D) || u == 0x20 || u == 0x85 || u == 0xA0 || u == 0x1680 || (0x2000 <= u
        && u <= 0x200A) || u == 0x2028 || u == 0x2029 || u == 0x202F || u == 0x205F || u == 0x3000
}

/// The characters of a string slice, one `char` per code point.
pub fn chars_of(s: &str) -> (v: Vec<char>)
    ensures
        v@ == s@,
{
    let n = s.unicode_len();
    let mut v: Vec<char> = Vec::new();
    let mut i: usize = 0;
    while i < n
        invariant
            n == s@.len(),
            i <= n,
            v@ == s@.take(i as int),
        decreases n - i,
    {
        v.push(s.get_char(i));
        i = i + 1;
        proof {
            assert(v@ =~= s@.take(i as int));
        }
    }
    proof {
        assert(v@ =~= s@);
    }
    v
}

/// Relies on `String::push`: appends one character to the string.
#[verifier::external_body]
pub(crate) fn push_char(s: &mut String, c: char)
    ensures
        final(s)@ == old(s)@.push(c),
{
    s.push(c);
}

/// A `String` holding exactly the given characters.
pub fn string_of(v: &Vec<char>) -> (s: String)
    ensures
        s@ == v@,
{
    let mut s = String::new();
    let mut i: usize = 0;
    while i < v.len()
        invariant
            i <= v@.len(),
            s@ == v@.take(i as int),
        decreases v@.len() - i,
    {
        push_char(&mut s, v[i]);
        i = i + 1;
        proof {
            assert(s@ =~= v@.take(i as int));
        }
    }
    proof {
        assert(s@ =~= v@);
    }
    s
}

/// `p` occurs in `s` starting at position `i`.
pub open spec fn occurs_at(s: Seq<char>, p: Seq<char>, i: int) -> bool {
    0 <= i && i + p.len() <= s.len() && s.subrange(i, i + p.len()) == p
}

/// `p` occurs somewhere in `s` as a contiguous substring.
pub open spec fn occurs(s: Seq<char>, p: Seq<char>) -> bool {
    exists|i: int| occurs_at(s, p, i)
}

/// `s` with every occurrence of `p` deleted, scanning left to right and
/// skipping past each match (leftmost, non-overlapping), as `str::replace`
/// with an empty replacement does.
pub open spec fn remove_all(s: Seq<char>, p: Seq<char>) -> Seq<char>
    decreases s.len(),
{
    if p.len() == 0 || s.len() == 0 {
        s
    } else if p.len() <= s.len() && s.subrange(0, p.len() as int) == p {
        remove_all(s.subrange(p.len() as int, s.len() as int), p)
    } else {
        seq![s[0]] + remove_all(s.subrange(1, s.len() as int), p)
    }
}

/// Removing a pattern never lengthens the text.
pub proof fn lemma_remove_all_len(s: Seq<char>, p: Seq<char>)
    ensures
        remove_all(s, p).len() <= s.len(),
    decreases s.len(),
{
    if p.len() == 0 || s.len() == 0 {
    } else if p.len() <= s.len() && s.subrange(0, p.len() as int) == p {
        lemma_remove_all_len(s.subrange(p.len() as int, s.len() as int), p);
    } else {
        lemma_remove_all_len(s.subrange(1, s.len() as int), p);
    }
}

/// Every character of the removal's result is a character of the input:
/// a character-level property that holds everywhere keeps holding.
pub proof fn lemma_remove_all_chars(s: Seq<char>, p: Seq<char>, f: spec_fn(char) -> bool)
    requires
        forall|i: int| 0 <= i < s.len() ==> f(#[trigger] s[i]),
    ensures
        forall|i: int| 0 <= i < remove_all(s, p).len() ==> f(#[trigger] remove_all(s, p)[i]),
    decreases s.len(),
{
    if p.len() == 0 || s.len() == 0 {
    } else if p.len() <= s.len() && s.subrange(0, p.len() as int) == p {
        let rest = s.subrange(p.len() as int, s.len() as int);
        lemma_remove_all_chars(rest, p, f);
        assert(remove_all(s, p) == remove_all(rest, p));
        assert forall|i: int| 0 <= i < remove_all(s, p).len() implies f(remove_all(s, p)[i]) by {
            assert(f(remove_all(rest, p)[i]));
        }
    } else {
        let rest = s.subrange(1, s.len() as int);
        lemma_remove_all_chars(rest, p, f);
        let r = seq![s[0]] + remove_all(rest, p);
        assert forall|i: int| 0 <= i < r.len() implies f(r[i]) by {
            if i == 0 {
                assert(r[0] == s[0]);
            } else {
                assert(r[i] == remove_all(rest, p)[i - 1]);
            }
        }
        assert(remove_all(s, p) == r);
    }
}

/// Where the pattern does not occur at all, removal is the identity.
pub proof fn lemma_remove_all_absent(s: Seq<char>, p: Seq<char>)
    requires
        !occurs(s, p),
    ensures
        remove_all(s, p) == s,
    decreases s.len(),
{
    if p.len() == 0 || s.len() == 0 {
    } else {
        assert(!(p.len() <= s.len() && s.subrange(0, p.len() as int) == p)) by {
            if p.len() <= s.len() && s.subrange(0, p.len() as int) == p {
                assert(occurs_at(s, p, 0));
            }
        }
        let rest = s.subrange(1, s.len() as int);
        assert(!occurs(rest, p)) by {
            if occurs(rest, p) {
                let i = choose|i: int| occurs_at(rest, p, i);
                assert(rest.subrange(i, i + p.len()) =~= s.subrange(i + 1, i + 1 + p.len()));
                assert(occurs_at(s, p, i + 1));
            }
        }
        lemma_remove_all_absent(rest, p);
        assert(seq![s[0]] + rest =~= s);
    }
}

/// Where the pattern does occur, removal strictly shortens the text: the
/// left-to-right scan reaches the leftmost occurrence and deletes it.
pub proof fn lemma_remove_all_shortens(s: Seq<char>, p: Seq<char>)
    requires
        p.len() > 0,
        occurs(s, p),
    ensures
        remove_all(s, p).len() < s.len(),
    decreases s.len(),
{
    let i = choose|i: int| occurs_at(s, p, i);
    if p.len() <= s.len() && s.subrange(0, p.len() as int) == p {
        lemma_remove_all_len(s.subrange(p.len() as int, s.len() as int), p);
    } else {
        let rest = s.subrange(1, s.len() as int);
        assert(i != 0) by {
            if i == 0 {
                assert(s.subrange(0, p.len() as int) == p);
            }
        }
        assert(occurs(rest, p)) by {
            assert(rest.subrange(i - 1, i - 1 + p.len()) =~= s.subrange(i, i + p.len()));
            assert(occurs_at(rest, p, i - 1));
        }
        lemma_remove_all_shortens(rest, p);
    }
}

proof fn lemma_occurs_in_tail(s: Seq<char>, p: Seq<char>)
    requires
        s.len() > 0,
        occurs(s.subrange(1, s.len() as int), p),
    ensures
        occurs(s, p),
{
    let rest = s.subrange(1, s.len() as int);
    let i = choose|i: int| occurs_at(rest, p, i);
    assert(rest.subrange(i, i + p.len()) =~= s.subrange(i + 1, i + 1 + p.len()));
    assert(occurs_at(s, p, i + 1));
}

proof fn lemma_occurs_in_front(s: Seq<char>, p: Seq<char>)
    requires
        s.len() > 0,
        occurs(s.subrange(0, s.len() - 1), p),
    ensures
        occurs(s, p),
{
    let front = s.subrange(0, s.len() - 1);
    let i = choose|i: int| occurs_at(front, p, i);
    assert(front.subrange(i, i + p.len()) =~= s.subrange(i, i + p.len()));
    assert(occurs_at(s, p, i));
}

proof fn lemma_trim_start_keeps_missing(s: Seq<char>, p: Seq<char>)
    requires
        !occurs(s, p),
    ensures
        !occurs(trim_start(s), p),
    decreases s.len(),
{
    if s.len() > 0 && is_space_char(s[0]) {
        let rest = s.subrange(1, s.len() as int);
        assert(!occurs(rest, p)) by {
            if occurs(rest, p) {
                lemma_occurs_in_tail(s, p);
            }
        }
        lemma_trim_start_keeps_missing(rest, p);
    }
}

proof fn lemma_trim_end_keeps_missing(s: Seq<char>, p: Seq<char>)
    requires
        !occurs(s, p),
    ensures
        !occurs(trim_end(s), p),
    decreases s.len(),
{
    if s.len() > 0 && is_space_char(s[s.len() - 1]) {
        let front = s.subrange(0, s.len() - 1);
        assert(!occurs(front, p)) by {
            if occurs(front, p) {
                lemma_occurs_in_front(s, p);
            }
        }
        lemma_trim_end_keeps_missing(front, p);
    }
}

/// Trimming cannot introduce an occurrence of a pattern.
pub proof fn lemma_trim_keeps_missing(s: Seq<char>, p: Seq<char>)
    requires
        !occurs(s, p),
    ensures
        !occurs(spec_trim(s), p),
{
    lemma_trim_start_keeps_missing(s, p);
    lemma_trim_end_keeps_missing(trim_start(s), p);
}

/// `v` starts with `p` at offset `i`.
fn starts_with_at(v: &Vec<char>, p: &Vec<char>, i: usize) -> (r: bool)
    requires
        i + p@.len() <= v@.len(),
    ensures
        r == (v@.subrange(i as int, i as int + p@.len() as int) == p@),
{
    let n = v.len();
    let m = p.len();
    let mut j: usize = 0;
    while j < m
        invariant
            n == v@.len(),
            m == p@.len(),
            i + m <= n,
            j <= m,
            forall|k: int| 0 <= k < j ==> v@[i + k] == p@[k],
        decreases m - j,
    {
        if v[i + j] != p[j] {
            proof {
                assert(v@.subrange(i as int, i as int + p@.len() as int)[j as int] != p@[j as int]);
            }
            return false;
        }
        j = j + 1;
    }
    proof {
        assert(v@.subrange(i as int, i as int + p@.len() as int) =~= p@);
    }
    true
}

/// Whether `p` occurs anywhere in `v` as a contiguous run.
pub fn contains_sub(v: &Vec<char>, p: &Vec<char>) -> (r: bool)
    ensures
        r == occurs(v@, p@),
{
    let n = v.len();
    let m = p.len();
    if m > n {
        proof {
            assert(!occurs(v@, p@)) by {
                if occurs(v@, p@) {
                    let i = choose|i: int| occurs_at(v@, p@, i);
                }
            }
        }
        return false;
    }
    if m == 0 {
        proof {
            assert(v@.subrange(0, 0) =~= p@);
            assert(occurs_at(v@, p@, 0));
        }
        return true;
    }
    let mut i: usize = 0;
    while i <= n - m
        invariant
            n == v@.len(),
            m == p@.len(),
            0 < m <= n,
            i <= n - m + 1,
            forall|k: int| 0 <= k < i ==> !occurs_at(v@, p@, k),
        decreases n - i,
    {
        if starts_with_at(v, p, i) {
            proof {
                assert(occurs_at(v@, p@, i as int));
            }
            return true;
        }
        i = i + 1;
    }
    proof {
        assert(!occurs(v@, p@)) by {
            if occurs(v@, p@) {
                let k = choose|k: int| occurs_at(v@, p@, k);
            }
        }
    }
    false
}

/// `v` with every occurrence of `p` deleted, leftmost first, non-overlapping.
pub fn remove_all_exec(v: &Vec<char>, p: &Vec<char>) -> (r: Vec<char>)
    requires
        p@.len() > 0,
    ensures
        r@ == remove_all(v@, p@),
{
    let mut r: Vec<char> = Vec::new();
    let n = v.len();
    let m = p.len();
    let mut i: usize = 0;
    proof {
        assert(v@.subrange(0, v@.len() as int) =~= v@);
        assert(Seq::<char>::empty() + remove_all(v@, p@) =~= remove_all(v@, p@));
    }
    while i < n
        invariant
            n == v@.len(),
            m == p@.len(),
            m > 0,
            i <= n,
            remove_all(v@, p@) == r@ + remove_all(v@.subrange(i as int, v@.len() as int), p@),
        decreases n - i,
    {
        let ghost pre = r@;
        let ghost tail = v@.subrange(i as int, v@.len() as int);
        if m <= n - i && starts_with_at(v, p, i) {
            proof {
                assert(tail.subrange(0, p@.len() as int) =~= v@.subrange(
                    i as int,
                    i as int + p@.len() as int,
                ));
                assert(tail.subrange(p@.len() as int, tail.len() as int) =~= v@.subrange(
                    i as int + p@.len() as int,
                    v@.len() as int,
                ));
            }
            i = i + m;
        } else {
            proof {
                if p@.len() <= tail.len() {
                    assert(tail.subrange(0, p@.len() as int) =~= v@.subrange(
                        i as int,
                        i as int + p@.len() as int,
                    ));
                }
                assert(tail.subrange(1, tail.len() as int) =~= v@.subrange(
                    i as int + 1,
                    v@.len() as int,
                ));
                assert(seq![v@[i as int]] + v@.subrange(i as int + 1, v@.len() as int)
                    =~= tail);
                assert(pre + (seq![v@[i as int]] + remove_all(
                    v@.subrange(i as int + 1, v@.len() as int),
                    p@,
                )) =~= pre.push(v@[i as int]) + remove_all(
                    v@.subrange(i as int + 1, v@.len() as int),
                    p@,
                ));
            }
            r.push(v[i]);
            i = i + 1;
        }
    }
    proof {
        assert(v@.subrange(i as int, v@.len() as int) =~= Seq::<char>::empty());
        assert(r@ + Seq::<char>::empty() =~= r@);
    }
    r
}

/// `s` without its leading whitespace.
pub open spec fn trim_start(s: Seq<char>) -> Seq<char>
    decreases s.len(),
{
    if s.len() > 0 && is_space_char(s[0]) {
        trim_start(s.subrange(1, s.len() as int))
    } else {
        s
    }
}

/// `s` without its trailing whitespace.
pub open spec fn trim_end(s: Seq<char>) -> Seq<char>
    decreases s.len(),
{
    if s.len() > 0 && is_space_char(s[s.len() - 1]) {
        trim_end(s.subrange(0, s.len() - 1))
    } else {
        s
    }
}

/// `s` without leading and trailing whitespace, as `str::trim` yields.
pub open spec fn spec_trim(s: Seq<char>) -> Seq<char> {
    trim_end(trim_start(s))
}

proof fn lemma_trim_start_at(s: Seq<char>, a: int)
    requires
        0 <= a <= s.len(),
        forall|j: int| 0 <= j < a ==> is_space_char(#[trigger] s[j]),
        a == s.len() || !is_space_char(s[a]),
    ensures
        trim_start(s) == s.subrange(a, s.len() as int),
    decreases a,
{
    if a == 0 {
        assert(s.subrange(0, s.len() as int) =~= s);
    } else {
        let rest = s.subrange(1, s.len() as int);
        lemma_trim_start_at(rest, a - 1);
        assert(rest.subrange(a - 1, rest.len() as int) =~= s.subrange(a, s.len() as int));
    }
}

proof fn lemma_trim_end_at(s: Seq<char>, b: int)
    requires
        0 <= b <= s.len(),
        forall|j: int| b <= j < s.len() ==> is_space_char(#[trigger] s[j]),
        b == 0 || !is_space_char(s[b - 1]),
    ensures
        trim_end(s) == s.subrange(0, b),
    decreases s.len() - b,
{
    if b == s.len() {
        if s.len() > 0 && is_space_char(s[s.len() - 1]) {
        } else {
            assert(s.subrange(0, b) =~= s);
        }
    } else {
        let rest = s.subrange(0, s.len() - 1);
        lemma_trim_end_at(rest, b);
        assert(rest.subrange(0, b) =~= s.subrange(0, b));
    }
}

/// A trim result neither starts nor ends with whitespace.
pub proof fn lemma_trim_trimmed(s: Seq<char>)
    ensures
        spec_trim(s).len() > 0 ==> !is_space_char(spec_trim(s)[0]),
        spec_trim(s).len() > 0 ==> !is_space_char(spec_trim(s)[spec_trim(s).len() - 1]),
{
    lemma_trim_start_head(s);
    lemma_trim_end_keeps_head(trim_start(s));
    lemma_trim_end_last(trim_start(s));
}

proof fn lemma_trim_start_head(s: Seq<char>)
    ensures
        trim_start(s).len() > 0 ==> !is_space_char(trim_start(s)[0]),
    decreases s.len(),
{
    if s.len() > 0 && is_space_char(s[0]) {
        lemma_trim_start_head(s.subrange(1, s.len() as int));
    }
}

proof fn lemma_trim_end_keeps_head(s: Seq<char>)
    ensures
        trim_end(s).len() > 0 ==> trim_end(s)[0] == s[0],
    decreases s.len(),
{
    if s.len() > 0 && is_space_char(s[s.len() - 1]) {
        lemma_trim_end_keeps_head(s.subrange(0, s.len() - 1));
    }
}

proof fn lemma_trim_end_last(s: Seq<char>)
    ensures
        trim_end(s).len() > 0 ==> !is_space_char(trim_end(s)[trim_end(s).len() - 1]),
    decreases s.len(),
{
    if s.len() > 0 && is_space_char(s[s.len() - 1]) {
        lemma_trim_end_last(s.subrange(0, s.len() - 1));
    }
}

/// Trimming a trimmed text changes nothing.
pub proof fn lemma_trim_idempotent(s: Seq<char>)
    ensures
        spec_trim(spec_trim(s)) == spec_trim(s),
{
    let r = spec_trim(s);
    lemma_trim_trimmed(s);
    if r.len() == 0 {
    } else {
        assert(trim_start(r) == r);
        assert(trim_end(r) == r);
    }
}

/// Trimming never lengthens the text, and keeps every character-level
/// property that held of all characters.
pub proof fn lemma_trim_within(s: Seq<char>, f: spec_fn(char) -> bool)
    requires
        forall|i: int| 0 <= i < s.len() ==> f(#[trigger] s[i]),
    ensures
        spec_trim(s).len() <= s.len(),
        forall|i: int| 0 <= i < spec_trim(s).len() ==> f(#[trigger] spec_trim(s)[i]),
{
    lemma_trim_start_within(s, f);
    lemma_trim_end_within(trim_start(s), f);
}

proof fn lemma_trim_start_within(s: Seq<char>, f: spec_fn(char) -> bool)
    requires
        forall|i: int| 0 <= i < s.len() ==> f(#[trigger] s[i]),
    ensures
        trim_start(s).len() <= s.len(),
        forall|i: int| 0 <= i < trim_start(s).len() ==> f(#[trigger] trim_start(s)[i]),
    decreases s.len(),
{
    if s.len() > 0 && is_space_char(s[0]) {
        lemma_trim_start_within(s.subrange(1, s.len() as int), f);
    }
}

proof fn lemma_trim_end_within(s: Seq<char>, f: spec_fn(char) -> bool)
    requires
        forall|i: int| 0 <= i < s.len() ==> f(#[trigger] s[i]),
    ensures
        trim_end(s).len() <= s.len(),
        forall|i: int| 0 <= i < trim_end(s).len() ==> f(#[trigger] trim_end(s)[i]),
    decreases s.len(),
{
    if s.len() > 0 && is_space_char(s[s.len() - 1]) {
        lemma_trim_end_within(s.subrange(0, s.len() - 1), f);
    }
}

/// `v` without leading and trailing whitespace.
pub fn trim_chars(v: &Vec<char>) -> (r: Vec<char>)
    ensures
        r@ == spec_trim(v@),
{
    let n = v.len();
    let mut a: usize = 0;
    while a < n && char_is_space(v[a])
        invariant
            n == v@.len(),
            a <= n,
            forall|j: int| 0 <= j < a ==> is_space_char(#[trigger] v@[j]),
        decreases n - a,
    {
        a = a + 1;
    }
    let mut b: usize = n;
    while b > a && char_is_space(v[b - 1])
        invariant
            n == v@.len(),
            a <= b <= n,
            forall|j: int| b <= j < n ==> is_space_char(#[trigger] v@[j]),
        decreases b,
    {
        b = b - 1;
    }
    let mut r: Vec<char> = Vec::new();
    let mut i: usize = a;
    while i < b
        invariant
            n == v@.len(),
            a <= i <= b <= n,
            r@ == v@.subrange(a as int, i as int),
        decreases b - i,
    {
        r.push(v[i]);
        i = i + 1;
        proof {
            assert(r@ =~= v@.subrange(a as int, i as int));
        }
    }
    proof {
        lemma_trim_start_at(v@, a as int);
        let t = v@.subrange(a as int, n as int);
        if b == a {
            lemma_trim_end_at(t, 0);
        } else {
            assert(!is_space_char(t[b - a - 1]));
            lemma_trim_end_at(t, b - a);
        }
        assert(t.subrange(0, b - a) =~= v@.subrange(a as int, b as int));
    }
    r
}

/// Character-wise equality of two string slices.
pub fn str_eq(a: &str, b: &str) -> (r: bool)
    ensures
        r == (a@ == b@),
{
    let na = a.unicode_len();
    let nb = b.unicode_len();
    if na != nb {
        return false;
    }
    let mut i: usize = 0;
    while i < na
        invariant
            na == a@.len(),
            na == b@.len(),
            i <= na,
            forall|j: int| 0 <= j < i ==> a@[j] == b@[j],
        decreases na - i,
    {
        if a.get_char(i) != b.get_char(i) {
            return false;
        }
        i = i + 1;
    }
    proof {
        assert(a@ =~= b@);
    }
    true
}

} // verus!
