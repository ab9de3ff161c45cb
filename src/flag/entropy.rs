//! Expansion of the `{entropy}` placeholder in flag paths.
use crate::text::{chars_of, string_of};
use rand::Rng;
use vstd::prelude::*;

verus! {

/// The placeholder text.
pub const PLACEHOLDER: &'static str = "{entropy}";

/// Number of hex characters that replace the placeholder.
pub const ENTROPY_LEN: usize = 12;

/// The characters of the placeholder.
pub open spec fn placeholder() -> Seq<char> {
    seq!['{', 'e', 'n', 't', 'r', 'o', 'p', 'y', '}']
}

/// Whether the placeholder starts at position `i` of `s`.
pub open spec fn occurs_at(s: Seq<char>, i: int) -> bool {
    0 <= i && i + 9 <= s.len() && s.subrange(i, i + 9) == placeholder()
}

/// Whether `s` holds the placeholder.
pub open spec fn has_placeholder(s: Seq<char>) -> bool {
    exists|i: int| occurs_at(s, i)
}

/// `s` with every placeholder, from left to right, replaced by `e`.
pub open spec fn replace_placeholder(s: Seq<char>, e: Seq<char>) -> Seq<char>
    decreases s.len(),
{
    if s.len() == 0 {
        s
    } else if occurs_at(s, 0) {
        e + replace_placeholder(s.subrange(9, s.len() as int), e)
    } else {
        seq![s[0]] + replace_placeholder(s.subrange(1, s.len() as int), e)
    }
}

/// Whether `c` is a lowercase hex digit.
pub open spec fn is_hex_char(c: char) -> bool {
    ('0' <= c && c <= '9') || ('a' <= c && c <= 'f')
}

/// Whether `e` is a run of `ENTROPY_LEN` lowercase hex digits.
pub open spec fn is_entropy(e: Seq<char>) -> bool {
    e.len() == ENTROPY_LEN && forall|i: int| 0 <= i < e.len() ==> is_hex_char(#[trigger] e[i])
}

/// Relies on rand's `thread_rng().gen_range(0..16)`: a number below 16 drawn
/// from a cryptographically secure generator; nothing more is known of it.
#[verifier::external_body]
fn random_nibble() -> (r: u32)
    ensures
        r < 16,
{
    rand::thread_rng().gen_range(0..16)
}

/// Twelve random lowercase hex digits.
pub fn random_entropy() -> (r: String)
    ensures
        is_entropy(r@),
{
    let digits: [char; 16] = ['0', '1', '2', '3', '4', '5', '6', '7', '8', '9', 'a', 'b', 'c', 'd', 'e', 'f'];
    let mut cs: Vec<char> = Vec::new();
    let mut i: usize = 0;
    while i < ENTROPY_LEN
        invariant
            i <= ENTROPY_LEN,
            cs@.len() == i,
            digits@ == seq!['0', '1', '2', '3', '4', '5', '6', '7', '8', '9', 'a', 'b', 'c', 'd', 'e', 'f'],
            forall|j: int| 0 <= j < i ==> is_hex_char(#[trigger] cs@[j]),
        decreases ENTROPY_LEN - i,
    {
        let n = random_nibble();
        cs.push(digits[n as usize]);
        i += 1;
    }
    string_of(&cs)
}

fn placeholder_at(cs: &Vec<char>, pat: &Vec<char>, i: usize) -> (r: bool)
    requires
        pat@ == placeholder(),
        i <= cs@.len(),
    ensures
        r == occurs_at(cs@, i as int),
{
    let n = cs.len();
    if n - i < 9 {
        return false;
    }
    let mut j: usize = 0;
    while j < 9
        invariant
            pat@ == placeholder(),
            n == cs@.len(),
            i + 9 <= cs@.len(),
            j <= 9,
            forall|k: int| 0 <= k < j ==> cs@[i + k] == pat@[k],
        decreases 9 - j,
    {
        if cs[i + j] != pat[j] {
            proof {
                assert(cs@.subrange(i as int, i + 9)[j as int] != placeholder()[j as int]);
            }
            return false;
        }
        j += 1;
    }
    proof {
        assert(cs@.subrange(i as int, i + 9) =~= placeholder());
    }
    true
}

/// Replaces every `{entropy}` in `path` by `entropy`.
pub fn substitute_entropy_with(path: &str, entropy: &str) -> (r: String)
    ensures
        r@ == replace_placeholder(path@, entropy@),
{
    proof {
        reveal_strlit("{entropy}");
    }
    let pat = chars_of(PLACEHOLDER);
    let cs = chars_of(path);
    let es = chars_of(entropy);
    let ghost s = path@;
    let mut out: Vec<char> = Vec::new();
    let mut i: usize = 0;
    proof {
        assert(s.subrange(0, s.len() as int) =~= s);
        assert(out@ + replace_placeholder(s, es@) =~= replace_placeholder(s, es@));
    }
    while i < cs.len()
        invariant
            pat@ == placeholder(),
            cs@ == s,
            es@ == entropy@,
            s == path@,
            i <= s.len(),
            out@ + replace_placeholder(s.subrange(i as int, s.len() as int), es@) == replace_placeholder(s, es@),
        decreases s.len() - i,
    {
        let ghost rest = s.subrange(i as int, s.len() as int);
        if placeholder_at(&cs, &pat, i) {
            proof {
                assert(rest.subrange(0, 9) =~= s.subrange(i as int, i + 9));
                assert(rest.subrange(9, rest.len() as int) =~= s.subrange(i + 9, s.len() as int));
            }
            let mut k: usize = 0;
            let ghost out0 = out@;
            while k < es.len()
                invariant
                    k <= es@.len(),
                    out@ == out0 + es@.subrange(0, k as int),
                decreases es@.len() - k,
            {
                out.push(es[k]);
                proof {
                    assert(es@.subrange(0, k + 1) =~= es@.subrange(0, k as int).push(es@[k as int]));
                }
                k += 1;
            }
            proof {
                assert(es@.subrange(0, es@.len() as int) =~= es@);
                assert(out0 + (es@ + replace_placeholder(s.subrange(i + 9, s.len() as int), es@))
                    =~= out@ + replace_placeholder(s.subrange(i + 9, s.len() as int), es@));
            }
            i += 9;
        } else {
            proof {
                assert(!occurs_at(rest, 0)) by {
                    if rest.len() >= 9 {
                        assert(rest.subrange(0, 9) =~= s.subrange(i as int, i + 9));
                    }
                }
                assert(rest.subrange(1, rest.len() as int) =~= s.subrange(i + 1, s.len() as int));
                assert(rest[0] == cs@[i as int]);
            }
            let ghost out0 = out@;
            out.push(cs[i]);
            proof {
                assert(out0 + (seq![cs@[i as int]] + replace_placeholder(s.subrange(i + 1, s.len() as int), es@))
                    =~= out@ + replace_placeholder(s.subrange(i + 1, s.len() as int), es@));
            }
            i += 1;
        }
    }
    proof {
        assert(s.subrange(i as int, s.len() as int).len() == 0);
        assert(out@ + Seq::<char>::empty() =~= out@);
    }
    string_of(&out)
}

/// Whether `p` is what `path` may become: `path` itself when it holds no
/// placeholder, else `path` with each placeholder replaced by the same twelve
/// lowercase hex digits.
pub open spec fn expands_to(path: Seq<char>, p: Seq<char>) -> bool {
    if has_placeholder(path) {
        exists|e: Seq<char>| is_entropy(e) && p == replace_placeholder(path, e)
    } else {
        p == path
    }
}

/// Replaces every `{entropy}` in `path` by twelve random lowercase hex
/// digits; a path without the placeholder comes back unchanged.
pub fn substitute_entropy(path: &str) -> (r: String)
    ensures
        expands_to(path@, r@),
{
    let e = random_entropy();
    let r = substitute_entropy_with(path, e.as_str());
    proof {
        if !has_placeholder(path@) {
            replace_without_placeholder(path@, e@);
        }
    }
    r
}

/// Without a placeholder, replacing changes nothing.
pub proof fn replace_without_placeholder(s: Seq<char>, e: Seq<char>)
    requires
        !has_placeholder(s),
    ensures
        replace_placeholder(s, e) == s,
    decreases s.len(),
{
    if s.len() > 0 {
        assert(!occurs_at(s, 0));
        let t = s.subrange(1, s.len() as int);
        assert(!has_placeholder(t)) by {
            if has_placeholder(t) {
                let i = choose|i: int| occurs_at(t, i);
                assert(s.subrange(i + 1, i + 10) =~= t.subrange(i, i + 9));
                assert(occurs_at(s, i + 1));
            }
        }
        replace_without_placeholder(t, e);
        assert(seq![s[0]] + t =~= s);
    }
}

proof fn replace_after_clear_prefix(s: Seq<char>, e: Seq<char>, k: int)
    requires
        0 <= k <= s.len(),
        forall|j: int| 0 <= j < k ==> !occurs_at(s, j),
    ensures
        replace_placeholder(s, e) == s.subrange(0, k) + replace_placeholder(s.subrange(k, s.len() as int), e),
    decreases k,
{
    if k == 0 {
        assert(s.subrange(0, 0) + s.subrange(0, s.len() as int) =~= s.subrange(0, s.len() as int));
        assert(s.subrange(0, s.len() as int) =~= s);
    } else {
        assert(!occurs_at(s, 0));
        let t = s.subrange(1, s.len() as int);
        assert forall|j: int| 0 <= j < k - 1 implies !occurs_at(t, j) by {
            if occurs_at(t, j) {
                assert(s.subrange(j + 1, j + 10) =~= t.subrange(j, j + 9));
                assert(occurs_at(s, j + 1));
            }
        }
        replace_after_clear_prefix(t, e, k - 1);
        assert(t.subrange(k - 1, t.len() as int) =~= s.subrange(k, s.len() as int));
        assert(seq![s[0]] + t.subrange(0, k - 1) =~= s.subrange(0, k));
    }
}

/// With the placeholder at position `k` and nowhere else, twelve hex digits
/// `e` take its place: the text grows by three characters, `e` stands at `k`,
/// and no placeholder is left.
pub proof fn single_placeholder_replaced(s: Seq<char>, e: Seq<char>, k: int)
    requires
        occurs_at(s, k),
        forall|j: int| occurs_at(s, j) ==> j == k,
        is_entropy(e),
    ensures
        replace_placeholder(s, e) == s.subrange(0, k) + e + s.subrange(k + 9, s.len() as int),
        replace_placeholder(s, e).len() == s.len() - 9 + 12,
        replace_placeholder(s, e).subrange(k, k + 12) == e,
        !has_placeholder(replace_placeholder(s, e)),
{
    let a = s.subrange(0, k);
    let b = s.subrange(k + 9, s.len() as int);
    replace_after_clear_prefix(s, e, k);
    let rest = s.subrange(k, s.len() as int);
    assert(rest.subrange(0, 9) =~= s.subrange(k, k + 9));
    assert(occurs_at(rest, 0));
    assert(rest.subrange(9, rest.len() as int) =~= b);
    assert(!has_placeholder(b)) by {
        if has_placeholder(b) {
            let j = choose|j: int| occurs_at(b, j);
            assert(s.subrange(j + k + 9, j + k + 18) =~= b.subrange(j, j + 9));
            assert(occurs_at(s, j + k + 9));
        }
    }
    replace_without_placeholder(b, e);
    let r = a + e + b;
    assert(replace_placeholder(s, e) == a + (e + b));
    assert(a + (e + b) =~= r);
    assert(r.subrange(k, k + 12) =~= e);
    assert forall|j: int| !occurs_at(r, j) by {
        if occurs_at(r, j) {
            let w = r.subrange(j, j + 9);
            assert(w == placeholder());
            if j + 9 <= k {
                assert(s.subrange(j, j + 9) =~= w);
                assert(occurs_at(s, j));
            } else if j >= k + 12 {
                assert(s.subrange(j - 3, j + 6) =~= w);
                assert(occurs_at(s, j - 3));
            } else {
                let t = if j > k {
                    j
                } else if k - j == 1 {
                    k + 1
                } else {
                    k
                };
                assert(j <= t < j + 9 && k <= t < k + 12 && t - j != 1);
                assert(r[t] == e[t - k]);
                assert(is_hex_char(e[t - k]));
                assert(w[t - j] == r[t]);
                assert(!is_hex_char(placeholder()[t - j]));
            }
        }
    }
}

/// The number of placeholders in `s`, counted from left to right without overlap.
pub open spec fn placeholder_count(s: Seq<char>) -> nat
    decreases s.len(),
{
    if s.len() == 0 {
        0
    } else if occurs_at(s, 0) {
        1 + placeholder_count(s.subrange(9, s.len() as int))
    } else {
        placeholder_count(s.subrange(1, s.len() as int))
    }
}

proof fn replaced_len(s: Seq<char>, e: Seq<char>)
    requires
        e.len() == ENTROPY_LEN,
    ensures
        replace_placeholder(s, e).len() == s.len() + 3 * placeholder_count(s),
    decreases s.len(),
{
    if s.len() > 0 {
        if occurs_at(s, 0) {
            replaced_len(s.subrange(9, s.len() as int), e);
        } else {
            replaced_len(s.subrange(1, s.len() as int), e);
        }
    }
}

proof fn count_zero(s: Seq<char>)
    requires
        placeholder_count(s) == 0,
    ensures
        !has_placeholder(s),
    decreases s.len(),
{
    if s.len() > 0 {
        let t = s.subrange(1, s.len() as int);
        count_zero(t);
        if has_placeholder(s) {
            let j = choose|j: int| occurs_at(s, j);
            assert(j != 0);
            assert(t.subrange(j - 1, j + 8) =~= s.subrange(j, j + 9));
            assert(occurs_at(t, j - 1));
        }
    }
}

/// A replacement that begins with a run `w` of characters that are no hex
/// digits was not made there: the text begins with `w` too.
proof fn unreplaced_prefix(u: Seq<char>, w: Seq<char>, e: Seq<char>)
    requires
        is_entropy(e),
        w.len() > 0,
        forall|i: int| 0 <= i < w.len() ==> !is_hex_char(#[trigger] w[i]),
        replace_placeholder(u, e).len() >= w.len(),
        replace_placeholder(u, e).subrange(0, w.len() as int) == w,
    ensures
        u.len() >= w.len(),
        u.subrange(0, w.len() as int) == w,
    decreases w.len(),
{
    let r = replace_placeholder(u, e);
    assert(r.subrange(0, w.len() as int)[0] == r[0]);
    if occurs_at(u, 0) {
        assert(r[0] == e[0]);
        assert(is_hex_char(e[0]));
    } else {
        let t = u.subrange(1, u.len() as int);
        let rt = replace_placeholder(t, e);
        assert(r == seq![u[0]] + rt);
        if w.len() > 1 {
            let w1 = w.subrange(1, w.len() as int);
            assert(rt.subrange(0, w1.len() as int) =~= r.subrange(0, w.len() as int).subrange(1, w.len() as int));
            assert forall|i: int| 0 <= i < w1.len() implies !is_hex_char(#[trigger] w1[i]) by {
                assert(w1[i] == w[i + 1]);
            }
            unreplaced_prefix(t, w1, e);
            assert(u.subrange(0, w.len() as int) =~= seq![u[0]] + t.subrange(0, w1.len() as int));
        } else {
            assert(u.subrange(0, w.len() as int) =~= seq![u[0]]);
        }
    }
}

/// A replacement that begins with the tail `entropy}` of the placeholder was
/// not made there: the text begins with it too.
proof fn unreplaced_tail(t: Seq<char>, e: Seq<char>)
    requires
        is_entropy(e),
        replace_placeholder(t, e).len() >= 8,
        replace_placeholder(t, e).subrange(0, 8) == placeholder().subrange(1, 9),
    ensures
        t.len() >= 8,
        t.subrange(0, 8) == placeholder().subrange(1, 9),
{
    let r = replace_placeholder(t, e);
    let tail = placeholder().subrange(1, 9);
    assert(r.subrange(0, 8)[1] == r[1]);
    if occurs_at(t, 0) {
        assert(r[1] == e[1]);
        assert(is_hex_char(e[1]));
    } else {
        let u = t.subrange(1, t.len() as int);
        let ru = replace_placeholder(u, e);
        assert(r == seq![t[0]] + ru);
        let w = placeholder().subrange(2, 9);
        assert(ru.subrange(0, 7) =~= r.subrange(0, 8).subrange(1, 8));
        assert(ru.subrange(0, 7) =~= w);
        assert forall|i: int| 0 <= i < w.len() implies !is_hex_char(#[trigger] w[i]) by {
            assert(w[i] == placeholder()[i + 2]);
        }
        unreplaced_prefix(u, w, e);
        assert(r.subrange(0, 8)[0] == r[0]);
        assert(t.subrange(0, 8) =~= seq![t[0]] + u.subrange(0, 7));
        assert(t.subrange(0, 8) =~= tail);
    }
}

/// Replacing placeholders by twelve hex digits leaves none behind.
proof fn replaced_has_none(s: Seq<char>, e: Seq<char>)
    requires
        is_entropy(e),
    ensures
        !has_placeholder(replace_placeholder(s, e)),
    decreases s.len(),
{
    let r = replace_placeholder(s, e);
    if s.len() > 0 {
        if occurs_at(s, 0) {
            let rest = replace_placeholder(s.subrange(9, s.len() as int), e);
            replaced_has_none(s.subrange(9, s.len() as int), e);
            assert(r == e + rest);
            assert forall|j: int| !occurs_at(r, j) by {
                if occurs_at(r, j) {
                    if j < 12 {
                        assert(r.subrange(j, j + 9)[0] == r[j]);
                        assert(r[j] == e[j]);
                        assert(is_hex_char(e[j]));
                    } else {
                        assert(rest.subrange(j - 12, j - 3) =~= r.subrange(j, j + 9));
                        assert(occurs_at(rest, j - 12));
                    }
                }
            }
        } else {
            let t = s.subrange(1, s.len() as int);
            let rest = replace_placeholder(t, e);
            replaced_has_none(t, e);
            assert(r == seq![s[0]] + rest);
            assert forall|j: int| !occurs_at(r, j) by {
                if occurs_at(r, j) {
                    if j >= 1 {
                        assert(rest.subrange(j - 1, j + 8) =~= r.subrange(j, j + 9));
                        assert(occurs_at(rest, j - 1));
                    } else {
                        assert(rest.subrange(0, 8) =~= r.subrange(0, 9).subrange(1, 9));
                        unreplaced_tail(t, e);
                        assert(r.subrange(0, 9)[0] == s[0]);
                        assert(s[0] == placeholder()[0]);
                        assert(s.subrange(0, 9) =~= seq![s[0]] + t.subrange(0, 8));
                        assert(seq![s[0]] + placeholder().subrange(1, 9) =~= placeholder());
                        assert(occurs_at(s, 0));
                    }
                }
            }
        }
    }
}

/// Replacing the `k` placeholders of `s` by twelve hex digits each makes the
/// text `3 * k` characters longer and leaves no placeholder; `k` is at least
/// one exactly when `s` holds a placeholder.
pub proof fn placeholders_replaced(s: Seq<char>, e: Seq<char>)
    requires
        is_entropy(e),
    ensures
        replace_placeholder(s, e).len() == s.len() + 3 * placeholder_count(s),
        !has_placeholder(replace_placeholder(s, e)),
        has_placeholder(s) <==> placeholder_count(s) >= 1,
{
    replaced_len(s, e);
    replaced_has_none(s, e);
    if placeholder_count(s) == 0 {
        count_zero(s);
    } else if !has_placeholder(s) {
        replace_without_placeholder(s, e);
    }
}

/// A placeholder between two texts that hold none is the one replaced:
/// `a{entropy}b` becomes `a`, then `e`, then `b`.
pub proof fn placeholder_between(a: Seq<char>, b: Seq<char>, e: Seq<char>)
    requires
        !has_placeholder(a),
        !has_placeholder(b),
    ensures
        replace_placeholder(a + placeholder() + b, e) == a + e + b,
{
    let s = a + placeholder() + b;
    let n = a.len() as int;
    assert forall|j: int| 0 <= j < n implies !occurs_at(s, j) by {
        if occurs_at(s, j) {
            if j + 9 <= n {
                assert(a.subrange(j, j + 9) =~= s.subrange(j, j + 9));
                assert(occurs_at(a, j));
            } else {
                assert(s.subrange(j, j + 9)[8] == s[j + 8]);
                assert(s[j + 8] == placeholder()[j + 8 - n]);
            }
        }
    }
    replace_after_clear_prefix(s, e, n);
    let rest = s.subrange(n, s.len() as int);
    assert(rest =~= placeholder() + b);
    assert(rest.subrange(0, 9) =~= placeholder());
    assert(rest.subrange(9, rest.len() as int) =~= b);
    replace_without_placeholder(b, e);
    assert(s.subrange(0, n) =~= a);
    assert(a + (e + b) =~= a + e + b);
}

} // verus!
