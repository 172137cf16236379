//! Byte-string utilities shared by the capture and window-selection logic:
//! substring containment, prefix tests, lexicographic order, and fixed-width
//! decimal rendering.

use vstd::prelude::*;
use vstd::string::StringSliceAdditionalSpecFns;

verus! {

/// The UTF-8 bytes of a character sequence; for a `String` or `&str` value
/// `s`, `bytes_of(s@)` is what `s.as_bytes()` returns.
pub open spec fn bytes_of(s: Seq<char>) -> Seq<u8> {
    vstd::utf8::encode_utf8(s)
}

/// `p` occurs as a contiguous run somewhere in `t`.
pub open spec fn contains_sub(t: Seq<u8>, p: Seq<u8>) -> bool {
    exists|i: int| 0 <= i && i + p.len() <= t.len() && #[trigger] t.subrange(i, i + p.len()) == p
}

/// `p` is a prefix of `t`.
pub open spec fn starts_with(t: Seq<u8>, p: Seq<u8>) -> bool {
    p.len() <= t.len() && t.subrange(0, p.len() as int) == p
}

/// Does `p` occur in `t` starting at position `at`?
fn matches_at(t: &[u8], p: &[u8], at: usize) -> (r: bool)
    requires
        at + p@.len() <= t@.len(),
    ensures
        r == (t@.subrange(at as int, at + p@.len()) == p@),
{
    let tlen = t.len();
    let plen = p.len();
    let mut j: usize = 0;
    while j < plen
        invariant
            0 <= j <= plen,
            plen == p@.len(),
            tlen == t@.len(),
            at + plen <= tlen,
            forall|k: int| 0 <= k < j ==> t@[at + k] == p@[k],
        decreases plen - j,
    {
        if t[at + j] != p[j] {
            assert(t@.subrange(at as int, at + p@.len())[j as int] != p@[j as int]);
            return false;
        }
        j += 1;
    }
    assert(t@.subrange(at as int, at + p@.len()) =~= p@);
    true
}

/// Byte-wise substring search.
pub fn bytes_contains(t: &[u8], p: &[u8]) -> (r: bool)
    ensures
        r == contains_sub(t@, p@),
{
    let tlen = t.len();
    let plen = p.len();
    if plen > tlen {
        assert(!contains_sub(t@, p@));
        return false;
    }
    let mut i: usize = 0;
    loop
        invariant
            plen == p@.len(),
            tlen == t@.len(),
            plen <= tlen,
            0 <= i <= tlen - plen,
            forall|k: int| 0 <= k < i ==> #[trigger] t@.subrange(k, k + p@.len()) != p@,
        decreases tlen - plen - i,
    {
        if matches_at(t, p, i) {
            return true;
        }
        if i == tlen - plen {
            return false;
        }
        i += 1;
    }
}

/// Substring test on string slices, stated over their UTF-8 bytes; this is
/// the containment relation of `str::contains` with a `&str` pattern.
pub fn str_contains(t: &str, p: &str) -> (r: bool)
    ensures
        r == contains_sub(t.spec_bytes(), p.spec_bytes()),
{
    bytes_contains(t.as_bytes(), p.as_bytes())
}

/// Strict lexicographic order on byte strings.
pub open spec fn lex_lt(a: Seq<u8>, b: Seq<u8>) -> bool {
    exists|i: int|
        0 <= i <= a.len() && i <= b.len() && #[trigger] a.subrange(0, i) == b.subrange(0, i) && (
        if i < a.len() {
            i < b.len() && a[i] < b[i]
        } else {
            i < b.len()
        })
}

pub open spec fn pow10(w: nat) -> nat
    decreases w,
{
    if w == 0 {
        1
    } else {
        10 * pow10((w - 1) as nat)
    }
}

/// The value `v` written as exactly `w` decimal digits, most significant
/// first, zero-padded on the left (and truncated to its `w` lowest digits
/// if it does not fit).
pub open spec fn digits(v: nat, w: nat) -> Seq<u8>
    decreases w,
{
    if w == 0 {
        Seq::empty()
    } else {
        digits(v / 10, (w - 1) as nat).push((48 + v % 10) as u8)
    }
}

pub proof fn lemma_digits_len(v: nat, w: nat)
    ensures
        digits(v, w).len() == w,
    decreases w,
{
    if w > 0 {
        lemma_digits_len(v / 10, (w - 1) as nat);
    }
}

/// Fixed-width decimal strings order like the values they render: smaller
/// value, lexicographically smaller digit string.
pub proof fn lemma_digits_lt(v1: nat, v2: nat, w: nat)
    requires
        v1 < v2,
        v2 < pow10(w),
    ensures
        lex_lt(digits(v1, w), digits(v2, w)),
    decreases w,
{
    lemma_digits_len(v1, w);
    lemma_digits_len(v2, w);
    let a = digits(v1, w);
    let b = digits(v2, w);
    if w == 0 {
        // Impossible: v1 < v2 < pow10(0) == 1 has no solutions.
        assert(pow10(0) == 1);
        assert(false);
    }
    let wm = (w - 1) as nat;
    let a0 = digits(v1 / 10, wm);
    let b0 = digits(v2 / 10, wm);
    lemma_digits_len(v1 / 10, wm);
    lemma_digits_len(v2 / 10, wm);
    assert(v1 == 10 * (v1 / 10) + v1 % 10 && v1 % 10 < 10) by (nonlinear_arith);
    assert(v2 == 10 * (v2 / 10) + v2 % 10 && v2 % 10 < 10) by (nonlinear_arith);
    assert(v2 / 10 < pow10(wm)) by {
        assert(pow10(w) == 10 * pow10(wm));
        assert(v2 < 10 * pow10(wm) ==> v2 / 10 < pow10(wm)) by (nonlinear_arith);
    }
    if v1 / 10 == v2 / 10 {
        // Same leading digits; the last digit decides.
        assert(a0 == b0);
        assert(a.subrange(0, wm as int) =~= a0);
        assert(b.subrange(0, wm as int) =~= b0);
        assert(a[wm as int] < b[wm as int]);
        assert(0 <= wm as int <= a.len() && wm as int <= b.len() && a.subrange(0, wm as int)
            == b.subrange(0, wm as int) && (wm as int) < a.len() && (wm as int) < b.len() && a[wm
            as int] < b[wm as int]);
    } else {
        assert(v1 / 10 < v2 / 10) by (nonlinear_arith)
            requires
                v1 < v2,
                v1 / 10 != v2 / 10,
                v1 == 10 * (v1 / 10) + v1 % 10,
                v2 == 10 * (v2 / 10) + v2 % 10,
                v1 % 10 < 10,
                v2 % 10 < 10,
        ;
        lemma_digits_lt(v1 / 10, v2 / 10, wm);
        let i = choose|i: int|
            0 <= i <= a0.len() && i <= b0.len() && #[trigger] a0.subrange(0, i) == b0.subrange(
                0,
                i,
            ) && (if i < a0.len() {
                i < b0.len() && a0[i] < b0[i]
            } else {
                i < b0.len()
            });
        // Both digit strings have length w - 1, so the witness index is a
        // strict position and lifts to the pushed strings unchanged.
        assert(a.subrange(0, i) =~= a0.subrange(0, i));
        assert(b.subrange(0, i) =~= b0.subrange(0, i));
        assert(a[i] == a0[i] && b[i] == b0[i]);
        assert(0 <= i <= a.len() && i <= b.len() && a.subrange(0, i) == b.subrange(0, i) && i
            < a.len() && i < b.len() && a[i] < b[i]);
    }
}

/// Lexicographic order between equal-length middles survives a common
/// prefix and arbitrary suffixes.
pub proof fn lemma_lex_append(p: Seq<u8>, a: Seq<u8>, b: Seq<u8>, x: Seq<u8>, y: Seq<u8>)
    requires
        a.len() == b.len(),
        lex_lt(a, b),
    ensures
        lex_lt(p + a + x, p + b + y),
{
    let i = choose|i: int|
        0 <= i <= a.len() && i <= b.len() && #[trigger] a.subrange(0, i) == b.subrange(0, i) && (
        if i < a.len() {
            i < b.len() && a[i] < b[i]
        } else {
            i < b.len()
        });
    // Equal lengths force the witness to sit at a strict position.
    let j = p.len() + i;
    let la = p + a + x;
    let lb = p + b + y;
    assert(la.subrange(0, j as int) =~= p + a.subrange(0, i));
    assert(lb.subrange(0, j as int) =~= p + b.subrange(0, i));
    assert(la[j as int] == a[i] && lb[j as int] == b[i]);
    assert(0 <= j as int <= la.len() && j as int <= lb.len() && la.subrange(0, j as int)
        == lb.subrange(0, j as int) && (j as int) < la.len() && (j as int) < lb.len() && la[j
        as int] < lb[j as int]);
}

/// Index of the first newline byte in `s`, or `s.len()` if there is none.
pub open spec fn first_nl(s: Seq<u8>) -> int
    decreases s.len(),
{
    if s.len() == 0 {
        0
    } else if s[0] == 10 {
        0
    } else {
        1 + first_nl(s.skip(1))
    }
}

/// `k` has everything that identifies the first newline, so it is the first
/// newline.
pub proof fn lemma_first_nl_is(s: Seq<u8>, k: int)
    requires
        0 <= k <= s.len(),
        k < s.len() ==> s[k] == 10,
        forall|j: int| 0 <= j < k ==> s[j] != 10,
    ensures
        first_nl(s) == k,
    decreases s.len(),
{
    if s.len() > 0 && s[0] != 10 {
        assert(forall|j: int| 0 <= j < s.len() - 1 ==> s.skip(1)[j] == s[j + 1]);
        lemma_first_nl_is(s.skip(1), k - 1);
    }
}

/// The lines of `s`, split at newline bytes; a trailing newline does not
/// open a last, empty line.  This matches how `str::lines` splits, except
/// that a carriage return before the newline is kept.
pub open spec fn split_lines(s: Seq<u8>) -> Seq<Seq<u8>>
    decreases s.len(),
{
    if s.len() == 0 {
        Seq::empty()
    } else {
        let k = first_nl(s);
        if 0 <= k < s.len() {
            seq![s.take(k)] + split_lines(s.skip(k + 1))
        } else {
            seq![s]
        }
    }
}

/// The longest length among `lines`, and zero of none.
pub open spec fn max_len_of(lines: Seq<Seq<u8>>) -> int
    decreases lines.len(),
{
    if lines.len() == 0 {
        0int
    } else {
        let m = max_len_of(lines.drop_last());
        if lines.last().len() > m {
            lines.last().len() as int
        } else {
            m
        }
    }
}

proof fn lemma_max_len_cons(x: Seq<u8>, rest: Seq<Seq<u8>>)
    ensures
        max_len_of(seq![x] + rest) == if x.len() > max_len_of(rest) {
            x.len() as int
        } else {
            max_len_of(rest)
        },
    decreases rest.len(),
{
    if rest.len() == 0 {
        assert(seq![x] + rest =~= seq![x]);
        assert(seq![x].drop_last() =~= Seq::<Seq<u8>>::empty());
        assert(max_len_of(Seq::<Seq<u8>>::empty()) == 0);
        assert(rest =~= Seq::<Seq<u8>>::empty());
    } else {
        assert((seq![x] + rest).drop_last() =~= seq![x] + rest.drop_last());
        assert((seq![x] + rest).last() == rest.last());
        lemma_max_len_cons(x, rest.drop_last());
    }
}

/// The length, in bytes, of the widest line of `s`, and one if `s` is
/// empty — the fallback a gradient over an empty logo uses.
pub open spec fn spec_max_line_len(s: Seq<u8>) -> int {
    if s.len() == 0 {
        1int
    } else {
        max_len_of(split_lines(s))
    }
}

/// The longest line length within `b` from position `from` on.
fn widest_from(b: &[u8], from: usize) -> (r: usize)
    requires
        from <= b@.len(),
    ensures
        r == max_len_of(split_lines(b@.skip(from as int))),
    decreases b@.len() - from,
{
    let n = b.len();
    if from == n {
        proof {
            assert(b@.skip(from as int) =~= Seq::<u8>::empty());
        }
        return 0;
    }
    let ghost s = b@.skip(from as int);
    let mut k = from;
    while k < n && b[k] != 10
        invariant
            n == b@.len(),
            from <= k <= n,
            forall|j: int| from <= j < k ==> b@[j] != 10,
        decreases n - k,
    {
        k += 1;
    }
    proof {
        assert(forall|j: int| 0 <= j < s.len() ==> s[j] == b@[from + j]);
        lemma_first_nl_is(s, k - from);
    }
    let head = k - from;
    if k == n {
        proof {
            assert(split_lines(s) == seq![s]);
            assert(max_len_of(seq![s]) == s.len()) by {
                assert(seq![s].drop_last() =~= Seq::<Seq<u8>>::empty());
                assert(max_len_of(Seq::<Seq<u8>>::empty()) == 0);
            }
        }
        head
    } else {
        let rest = widest_from(b, k + 1);
        proof {
            assert(s.skip(head + 1) =~= b@.skip(k + 1));
            assert(split_lines(s) == seq![s.take(head as int)] + split_lines(b@.skip(k + 1)));
            lemma_max_len_cons(s.take(head as int), split_lines(b@.skip(k + 1)));
            assert(s.take(head as int).len() == head);
        }
        if head > rest {
            head
        } else {
            rest
        }
    }
}

/// The length, in bytes, of the widest newline-separated line of `s`; one
/// for an empty string.
pub fn max_line_len(s: &str) -> (r: usize)
    ensures
        r == spec_max_line_len(s.spec_bytes()),
{
    let b = s.as_bytes();
    if b.len() == 0 {
        proof {
            assert(b@ =~= Seq::<u8>::empty());
        }
        return 1;
    }
    proof {
        assert(b@.skip(0) =~= b@);
    }
    widest_from(b, 0)
}

/// Appends the value `v` to `out` as exactly `width` decimal digits,
/// most significant first, zero-padded on the left.
pub fn push_digits(out: &mut Vec<u8>, v: u64, width: u8)
    requires
        (v as nat) < pow10(width as nat),
    ensures
        final(out)@ == old(out)@ + digits(v as nat, width as nat),
    decreases width,
{
    if width == 0 {
        assert(out@ =~= out@ + digits(v as nat, 0));
        return ;
    }
    proof {
        assert(v as nat == 10 * ((v as nat) / 10) + (v as nat) % 10 && (v as nat) / 10 < pow10(
            (width - 1) as nat,
        )) by (nonlinear_arith)
            requires
                (v as nat) < pow10(width as nat),
                pow10(width as nat) == 10 * pow10((width - 1) as nat),
        ;
    }
    push_digits(out, v / 10, width - 1);
    out.push(48 + (v % 10) as u8);
    assert(out@ =~= old(out)@ + digits(v as nat, width as nat));
}

} // verus!
