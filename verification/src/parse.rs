//! The timestamp file format: the whole content of a timestamp file is the
//! decimal text of a non-negative number of milliseconds, optionally
//! surrounded by whitespace. This module gives the format a mathematical
//! definition (`parse_spec`) and verified encode/decode functions.

use vstd::prelude::*;

verus! {

/// Whitespace bytes that may surround the number: space, tab, line feed,
/// vertical tab, form feed, carriage return.
pub open spec fn is_ws(b: u8) -> bool {
    b == 32 || b == 9 || b == 10 || b == 11 || b == 12 || b == 13
}

/// ASCII decimal digit.
pub open spec fn is_digit(b: u8) -> bool {
    48 <= b && b <= 57
}

pub open spec fn all_digits(s: Seq<u8>) -> bool {
    forall|i: int| 0 <= i < s.len() ==> is_digit(#[trigger] s[i])
}

/// The byte sequence with leading whitespace removed.
pub open spec fn trim_front(s: Seq<u8>) -> Seq<u8>
    decreases s.len(),
{
    if s.len() > 0 && is_ws(s[0]) {
        trim_front(s.drop_first())
    } else {
        s
    }
}

/// The byte sequence with trailing whitespace removed.
pub open spec fn trim_back(s: Seq<u8>) -> Seq<u8>
    decreases s.len(),
{
    if s.len() > 0 && is_ws(s.last()) {
        trim_back(s.drop_last())
    } else {
        s
    }
}

/// The byte sequence with surrounding whitespace removed.
pub open spec fn trim(s: Seq<u8>) -> Seq<u8> {
    trim_back(trim_front(s))
}

/// An optional single leading `+` sign is accepted before the digits.
pub open spec fn strip_plus(t: Seq<u8>) -> Seq<u8> {
    if t.len() > 0 && t[0] == 43 {
        t.drop_first()
    } else {
        t
    }
}

/// The number denoted by a sequence of decimal digits, most significant
/// first. Meaningful only when `all_digits(s)`.
pub open spec fn dec_val(s: Seq<u8>) -> int
    decreases s.len(),
{
    if s.len() == 0 {
        0
    } else {
        dec_val(s.drop_last()) * 10 + (s.last() - 48)
    }
}

/// What a timestamp file's content means: after removing surrounding
/// whitespace and an optional `+` sign, a non-empty run of decimal digits
/// whose value fits in `u64` denotes that many milliseconds; any other
/// content is invalid.
pub open spec fn parse_spec(s: Seq<u8>) -> Option<u64> {
    let d = strip_plus(trim(s));
    if d.len() > 0 && all_digits(d) && dec_val(d) <= u64::MAX {
        Some(dec_val(d) as u64)
    } else {
        None
    }
}

proof fn lemma_trim_front_is_skip(s: Seq<u8>, k: int)
    requires
        0 <= k <= s.len(),
        forall|j: int| 0 <= j < k ==> is_ws(#[trigger] s[j]),
        k == s.len() || !is_ws(s[k]),
    ensures
        trim_front(s) == s.skip(k),
    decreases k,
{
    if k == 0 {
        assert(s.skip(0) =~= s);
    } else {
        assert(is_ws(s[0]));
        lemma_trim_front_is_skip(s.drop_first(), k - 1);
        assert(s.drop_first().skip(k - 1) =~= s.skip(k));
    }
}

proof fn lemma_trim_back_is_take(s: Seq<u8>, k: int)
    requires
        0 <= k <= s.len(),
        forall|j: int| k <= j < s.len() ==> is_ws(#[trigger] s[j]),
        k == 0 || !is_ws(s[k - 1]),
    ensures
        trim_back(s) == s.take(k),
    decreases s.len(),
{
    if k == s.len() {
        if s.len() == 0 {
            assert(s.take(0) =~= s);
        } else {
            assert(!is_ws(s.last()));
            assert(s.take(k) =~= s);
        }
    } else {
        assert(is_ws(s.last()));
        lemma_trim_back_is_take(s.drop_last(), k);
        assert(s.drop_last().take(k) =~= s.take(k));
    }
}

proof fn lemma_dec_val_bounds(s: Seq<u8>)
    requires
        all_digits(s),
    ensures
        dec_val(s) >= 0,
    decreases s.len(),
{
    if s.len() > 0 {
        assert(all_digits(s.drop_last())) by {
            assert(forall|i: int|
                0 <= i < s.len() - 1 ==> is_digit(#[trigger] s.drop_last()[i]) == is_digit(s[i]));
        }
        lemma_dec_val_bounds(s.drop_last());
        assert(is_digit(s.last()));
    }
}

proof fn lemma_dec_val_step(s: Seq<u8>, k: int)
    requires
        0 <= k < s.len(),
    ensures
        dec_val(s.take(k + 1)) == dec_val(s.take(k)) * 10 + (s[k] - 48),
{
    assert(s.take(k + 1).drop_last() =~= s.take(k));
    assert(s.take(k + 1).last() == s[k]);
}

/// A prefix of a digit run denotes no more than the whole run.
proof fn lemma_dec_val_prefix_le(s: Seq<u8>, k: int)
    requires
        all_digits(s),
        0 <= k <= s.len(),
    ensures
        dec_val(s.take(k)) <= dec_val(s),
    decreases s.len() - k,
{
    if k == s.len() {
        assert(s.take(k) =~= s);
    } else {
        lemma_dec_val_step(s, k);
        assert(all_digits(s.take(k))) by {
            assert(forall|i: int| 0 <= i < k ==> is_digit(#[trigger] s.take(k)[i]) == is_digit(s[i]));
        }
        lemma_dec_val_bounds(s.take(k));
        assert(dec_val(s.take(k)) * 10 >= dec_val(s.take(k))) by (nonlinear_arith)
            requires dec_val(s.take(k)) >= 0;
        assert(is_digit(s[k]));
        lemma_dec_val_prefix_le(s, k + 1);
    }
}

/// Decodes a timestamp file's content. Returns the number of milliseconds
/// exactly when the content is valid under `parse_spec`.
pub fn parse_millis(v: &Vec<u8>) -> (r: Option<u64>)
    ensures
        r == parse_spec(v@),
{
    let n: usize = v.len();
    let mut lo: usize = 0;
    while lo < n && (v[lo] == 32 || v[lo] == 9 || v[lo] == 10 || v[lo] == 11 || v[lo] == 12
        || v[lo] == 13)
        invariant
            n == v.len(),
            lo <= n,
            forall|j: int| 0 <= j < lo ==> is_ws(#[trigger] v@[j]),
        decreases n - lo,
    {
        lo += 1;
    }
    proof {
        lemma_trim_front_is_skip(v@, lo as int);
    }
    let ghost front = v@.skip(lo as int);
    let mut hi: usize = n;
    while hi > lo && (v[hi - 1] == 32 || v[hi - 1] == 9 || v[hi - 1] == 10 || v[hi - 1] == 11
        || v[hi - 1] == 12 || v[hi - 1] == 13)
        invariant
            n == v.len(),
            lo <= hi <= n,
            forall|j: int| hi <= j < n ==> is_ws(#[trigger] v@[j]),
        decreases hi,
    {
        hi -= 1;
    }
    proof {
        assert(forall|j: int|
            hi - lo <= j < front.len() ==> is_ws(#[trigger] front[j]) == is_ws(v@[j + lo]));
        lemma_trim_back_is_take(front, hi - lo);
        assert(trim(v@) =~= v@.subrange(lo as int, hi as int));
    }
    // An optional single `+` sign before the digits.
    if hi > lo && v[lo] == 43 {
        lo += 1;
        proof {
            assert(strip_plus(trim(v@)) =~= v@.subrange(lo as int, hi as int));
        }
    } else {
        proof {
            assert(strip_plus(trim(v@)) =~= v@.subrange(lo as int, hi as int));
        }
    }
    let ghost d = v@.subrange(lo as int, hi as int);
    if lo == hi {
        return None;
    }
    let mut acc: u64 = 0;
    let mut i: usize = lo;
    while i < hi
        invariant
            n == v.len(),
            lo <= i <= hi <= n,
            d == v@.subrange(lo as int, hi as int),
            d == strip_plus(trim(v@)),
            d.len() > 0,
            all_digits(d.take(i - lo)),
            acc == dec_val(d.take(i - lo)),
        decreases hi - i,
    {
        let b = v[i];
        assert(d[i - lo] == b);
        if b < 48 || b > 57 {
            assert(!is_digit(d[i - lo]));
            assert(!all_digits(d));
            return None;
        }
        let digit = (b - 48) as u64;
        proof {
            lemma_dec_val_step(d, i - lo);
        }
        if acc > (u64::MAX - digit) / 10 {
            proof {
                let t = (u64::MAX - digit) as int;
                assert(acc * 10 + digit > u64::MAX) by (nonlinear_arith)
                    requires
                        acc > t / 10,
                        t == u64::MAX - digit,
                        0 <= digit <= 9;
                assert(dec_val(d.take(i - lo + 1)) > u64::MAX);
                assert(all_digits(d) ==> dec_val(d) > u64::MAX) by {
                    if all_digits(d) {
                        lemma_dec_val_prefix_le(d, i - lo + 1);
                    }
                }
            }
            return None;
        }
        proof {
            let t = (u64::MAX - digit) as int;
            assert(acc * 10 + digit <= u64::MAX) by (nonlinear_arith)
                requires
                    acc <= t / 10,
                    t == u64::MAX - digit,
                    0 <= digit <= 9,
                    acc >= 0;
        }
        acc = acc * 10 + digit;
        i += 1;
        proof {
            assert(forall|j: int|
                0 <= j < i - lo ==> is_digit(#[trigger] d.take(i - lo)[j]) == is_digit(d[j]));
        }
    }
    proof {
        assert(d.take(hi - lo) =~= d);
    }
    Some(acc)
}

pub open spec fn pow10(k: nat) -> int
    decreases k,
{
    if k == 0 {
        1
    } else {
        10 * pow10((k - 1) as nat)
    }
}

/// Prepending a digit raises the denoted number by digit times the power of
/// ten for the former length.
proof fn lemma_dec_val_prepend(d: u8, s: Seq<u8>)
    ensures
        dec_val(seq![d] + s) == (d - 48) * pow10(s.len()) + dec_val(s),
    decreases s.len(),
{
    if s.len() == 0 {
        assert(seq![d] + s =~= seq![d]);
        assert((seq![d]).drop_last() =~= Seq::<u8>::empty());
        assert(dec_val(Seq::<u8>::empty()) == 0);
        assert(dec_val(seq![d]) == d - 48);
        assert(pow10(0) == 1);
    } else {
        assert((seq![d] + s).drop_last() =~= seq![d] + s.drop_last());
        assert((seq![d] + s).last() == s.last());
        lemma_dec_val_prepend(d, s.drop_last());
        let p = pow10((s.len() - 1) as nat);
        let dv = dec_val(s.drop_last());
        assert(dec_val(seq![d] + s.drop_last()) == (d - 48) * p + dv);
        assert(dec_val(seq![d] + s) == ((d - 48) * p + dv) * 10 + (s.last() - 48));
        assert(pow10(s.len()) == 10 * p);
        assert(dec_val(s) == dv * 10 + (s.last() - 48));
        assert(((d - 48) * p + dv) * 10 + (s.last() - 48) == (d - 48) * (10 * p) + (dv * 10 + (
        s.last() - 48))) by (nonlinear_arith);
    }
}

/// Encodes `millis` as decimal digits, most significant first, with no
/// leading zero except for the single digit of zero itself. These clauses
/// pin the result: the canonical decimal text of `millis`.
pub fn format_millis(millis: u64) -> (r: Vec<u8>)
    ensures
        r@.len() > 0,
        all_digits(r@),
        dec_val(r@) == millis,
        r@.len() > 1 ==> r@[0] != 48,
{
    let mut out: Vec<u8> = Vec::new();
    if millis == 0 {
        out.push(48);
        proof {
            assert(out@ =~= seq![48u8]);
            assert((seq![48u8]).drop_last() =~= Seq::<u8>::empty());
            assert(dec_val(Seq::<u8>::empty()) == 0);
            assert(dec_val(seq![48u8]) == 0);
        }
        return out;
    }
    let mut x: u64 = millis;
    while x > 0
        invariant
            x * pow10(out@.len() as nat) + dec_val(out@) == millis,
            all_digits(out@),
            x == 0 ==> out@.len() > 0 && out@[0] != 48,
        decreases x,
    {
        let ghost prev = out@;
        let ghost old_x = x;
        let digit: u8 = (x % 10) as u8 + 48;
        let new_x: u64 = x / 10;
        out.insert(0, digit);
        proof {
            assert(out@ =~= seq![digit] + prev);
            lemma_dec_val_prepend(digit, prev);
            let p = pow10(prev.len() as nat);
            assert(pow10(out@.len() as nat) == 10 * p);
            assert(new_x * (10 * p) + ((digit - 48) * p + dec_val(prev)) == old_x * p + dec_val(
            prev)) by (nonlinear_arith)
                requires
                    old_x == 10 * new_x + (digit - 48),
            ;
        }
        x = new_x;
    }
    out
}

/// The round trip of the timestamp file format: content whose trimmed text
/// is a run of decimal digits denoting `m` — in particular anything
/// `format_millis(m)` wrote, with or without surrounding whitespace —
/// decodes to exactly `m` milliseconds.
pub proof fn lemma_millis_roundtrip(s: Seq<u8>, m: u64)
    requires
        trim(s).len() > 0,
        all_digits(trim(s)),
        dec_val(trim(s)) == m,
    ensures
        parse_spec(s) == Some(m),
{
    let d = trim(s);
    assert(is_digit(d[0]));
    assert(d[0] != 43);
    assert(strip_plus(d) == d);
}

/// A pure digit run carries no surrounding whitespace: trimming leaves it
/// unchanged.
pub proof fn lemma_trim_of_digits(d: Seq<u8>)
    requires
        d.len() > 0,
        all_digits(d),
    ensures
        trim(d) == d,
{
    assert(!is_ws(d[0]));
    assert(!is_ws(d.last()));
}

} // verus!
