//! Byte-level text handling for the parameter files: trimming surrounding
//! whitespace, parsing a small decimal integer, and rendering values back to
//! their canonical text form.

use vstd::prelude::*;

verus! {

/// ASCII whitespace, as trimmed from around a parameter file's payload.
pub open spec fn is_space(b: u8) -> bool {
    b == 32 || (9 <= b && b <= 13)
}

/// ASCII decimal digit.
pub open spec fn is_digit(b: u8) -> bool {
    48 <= b && b <= 57
}

pub open spec fn all_digits(s: Seq<u8>) -> bool {
    forall|i: int| 0 <= i < s.len() ==> is_digit(s[i])
}

/// The number denoted by a sequence of decimal digit bytes.
pub open spec fn digits_value(s: Seq<u8>) -> int
    decreases s.len(),
{
    if s.len() == 0 {
        0
    } else {
        digits_value(s.drop_last()) * 10 + (s.last() - 48)
    }
}

pub open spec fn trim_front(s: Seq<u8>) -> Seq<u8>
    decreases s.len(),
{
    if s.len() > 0 && is_space(s[0]) {
        trim_front(s.drop_first())
    } else {
        s
    }
}

pub open spec fn trim_back(s: Seq<u8>) -> Seq<u8>
    decreases s.len(),
{
    if s.len() > 0 && is_space(s.last()) {
        trim_back(s.drop_last())
    } else {
        s
    }
}

/// The payload with all leading and trailing whitespace removed.
pub open spec fn trim_spec(s: Seq<u8>) -> Seq<u8> {
    trim_back(trim_front(s))
}

/// What `u8` a trimmed payload denotes: an optional leading plus sign, then at
/// least one decimal digit, with a value that fits in eight bits. Anything
/// else does not parse.
pub open spec fn parse_u8_spec(s: Seq<u8>) -> Option<u8> {
    let t = if s.len() > 0 && s[0] == 43 {
        s.drop_first()
    } else {
        s
    };
    if t.len() > 0 && all_digits(t) && digits_value(t) <= 255 {
        Some(digits_value(t) as u8)
    } else {
        None
    }
}

fn is_space_byte(b: u8) -> (r: bool)
    ensures
        r == is_space(b),
{
    b == 32 || (9 <= b && b <= 13)
}

proof fn lemma_digits_value_nonneg(s: Seq<u8>)
    requires
        all_digits(s),
    ensures
        digits_value(s) >= 0,
    decreases s.len(),
{
    if s.len() > 0 {
        assert(all_digits(s.drop_last()));
        lemma_digits_value_nonneg(s.drop_last());
    }
}

/// Appending digits never shrinks the denoted number.
proof fn lemma_digits_value_mono(s: Seq<u8>, i: int)
    requires
        0 <= i <= s.len(),
        all_digits(s),
    ensures
        digits_value(s.take(i)) <= digits_value(s),
    decreases s.len() - i,
{
    if i == s.len() {
        assert(s.take(i) =~= s);
    } else {
        lemma_digits_value_mono(s, i + 1);
        assert(s.take(i + 1).drop_last() =~= s.take(i));
        assert(all_digits(s.take(i)));
        lemma_digits_value_nonneg(s.take(i));
        assert(s.take(i + 1).last() == s[i]);
        assert(digits_value(s.take(i + 1)) == digits_value(s.take(i)) * 10 + (s[i] - 48));
    }
}

proof fn lemma_trim_front_skip(s: Seq<u8>, i: int)
    requires
        0 <= i <= s.len(),
        forall|j: int| 0 <= j < i ==> is_space(s[j]),
        i < s.len() ==> !is_space(s[i]),
    ensures
        trim_front(s) == s.skip(i),
    decreases i,
{
    if i == 0 {
        assert(s.skip(0) =~= s);
    } else {
        let t = s.drop_first();
        assert(forall|j: int| 0 <= j < i - 1 ==> is_space(t[j]));
        lemma_trim_front_skip(t, i - 1);
        assert(t.skip(i - 1) =~= s.skip(i));
    }
}

proof fn lemma_trim_back_take(s: Seq<u8>, i: int)
    requires
        0 <= i <= s.len(),
        forall|j: int| i <= j < s.len() ==> is_space(s[j]),
        i > 0 ==> !is_space(s[i - 1]),
    ensures
        trim_back(s) == s.take(i),
    decreases s.len() - i,
{
    if i == s.len() {
        assert(s.take(i) =~= s);
    } else {
        let t = s.drop_last();
        lemma_trim_back_take(t, i);
        assert(t.take(i) =~= s.take(i));
    }
}

/// When the bytes before `lo` and from `hi` on are whitespace and the bytes at
/// the two boundaries are not, trimming yields exactly the middle part.
proof fn lemma_trim_subrange(s: Seq<u8>, lo: int, hi: int)
    requires
        0 <= lo <= hi <= s.len(),
        forall|j: int| 0 <= j < lo ==> is_space(s[j]),
        forall|j: int| hi <= j < s.len() ==> is_space(s[j]),
        lo < hi ==> !is_space(s[lo]) && !is_space(s[hi - 1]),
        lo == hi ==> hi == s.len(),
    ensures
        trim_spec(s) == s.subrange(lo, hi),
{
    lemma_trim_front_skip(s, lo);
    let t = s.skip(lo);
    assert(forall|j: int| hi - lo <= j < t.len() ==> is_space(t[j]));
    lemma_trim_back_take(t, hi - lo);
    assert(t.take(hi - lo) =~= s.subrange(lo, hi));
}

/// Parse a parameter file's payload as a small unsigned decimal: trim the
/// surrounding whitespace, accept an optional leading plus sign and at least
/// one digit, and reject values above `u8::MAX`.
pub fn parse_trimmed_u8(content: &Vec<u8>) -> (r: Option<u8>)
    ensures
        r == parse_u8_spec(trim_spec(content@)),
{
    let n: usize = content.len();
    let mut lo: usize = 0;
    while lo < n
        invariant_except_break
            lo <= n,
            n == content@.len(),
            forall|j: int| 0 <= j < lo ==> is_space(content@[j]),
        ensures
            lo <= n,
            n == content@.len(),
            forall|j: int| 0 <= j < lo ==> is_space(content@[j]),
            lo < n ==> !is_space(content@[lo as int]),
        decreases n - lo,
    {
        if !is_space_byte(content[lo]) {
            break;
        }
        lo = lo + 1;
    }
    let mut hi: usize = n;
    while hi > lo
        invariant_except_break
            lo <= hi <= n,
            n == content@.len(),
            forall|j: int| hi <= j < n ==> is_space(content@[j]),
        ensures
            lo <= hi <= n,
            n == content@.len(),
            forall|j: int| hi <= j < n ==> is_space(content@[j]),
            hi > lo ==> !is_space(content@[hi - 1]),
        decreases hi,
    {
        if !is_space_byte(content[hi - 1]) {
            break;
        }
        hi = hi - 1;
    }
    proof {
        lemma_trim_subrange(content@, lo as int, hi as int);
    }
    let ghost t = content@.subrange(lo as int, hi as int);
    let start: usize = if lo < hi && content[lo] == 43 {
        lo + 1
    } else {
        lo
    };
    let ghost d = content@.subrange(start as int, hi as int);
    proof {
        if t.len() > 0 && t[0] == 43 {
            assert(t.drop_first() =~= d);
        } else {
            assert(t =~= d);
        }
    }
    if start == hi {
        return None;
    }
    let mut acc: u32 = 0;
    let mut i: usize = start;
    while i < hi
        invariant
            start <= i <= hi <= n,
            start < hi,
            n == content@.len(),
            d == content@.subrange(start as int, hi as int),
            parse_u8_spec(trim_spec(content@)) == (if d.len() > 0 && all_digits(d)
                && digits_value(d) <= 255 { Some(digits_value(d) as u8) } else { None::<u8> }),
            acc <= 255,
            forall|j: int| start <= j < i ==> is_digit(content@[j]),
            acc == digits_value(content@.subrange(start as int, i as int)),
        decreases hi - i,
    {
        let b = content[i];
        proof {
            assert(d.take(i - start + 1) =~= content@.subrange(start as int, i as int + 1));
            assert(content@.subrange(start as int, i as int + 1).drop_last()
                =~= content@.subrange(start as int, i as int));
            assert(content@.subrange(start as int, i as int + 1).last() == content@[i as int]);
        }
        if b < 48 || b > 57 {
            assert(d[i - start] == content@[i as int]);
            assert(!all_digits(d));
            return None;
        }
        let next: u32 = acc * 10 + ((b - 48) as u32);
        assert(next == digits_value(content@.subrange(start as int, i as int + 1)));
        if next > 255 {
            proof {
                if all_digits(d) {
                    lemma_digits_value_mono(d, i - start + 1);
                }
            }
            return None;
        }
        acc = next;
        i = i + 1;
    }
    proof {
        assert(d =~= content@.subrange(start as int, i as int));
        assert forall|k: int| 0 <= k < d.len() implies is_digit(d[k]) by {
            assert(d[k] == content@[start + k]);
        }
    }
    Some(acc as u8)
}

/// The canonical decimal text of a number: no sign, no leading zero except
/// for the number zero itself.
pub open spec fn dec_of(n: nat) -> Seq<u8>
    decreases n,
{
    if n < 10 {
        seq![(48 + n) as u8]
    } else {
        dec_of(n / 10).push((48 + n % 10) as u8)
    }
}

/// Render a value as its canonical decimal text.
pub fn u8_to_dec(v: u8) -> (r: Vec<u8>)
    ensures
        r@ == dec_of(v as nat),
{
    if v < 10 {
        let r: Vec<u8> = vec![48 + v];
        assert(r@ =~= dec_of(v as nat));
        r
    } else if v < 100 {
        let r: Vec<u8> = vec![48 + v / 10, 48 + v % 10];
        assert(dec_of((v / 10) as nat) =~= seq![(48 + v / 10) as u8]);
        assert(r@ =~= dec_of(v as nat));
        r
    } else {
        let r: Vec<u8> = vec![48 + v / 100, 48 + (v / 10) % 10, 48 + v % 10];
        proof {
            vstd::arithmetic::div_mod::lemma_div_denominator(v as int, 10, 10);
            assert((v as nat) / 10 / 10 == (v as nat) / 100);
            assert(dec_of((v / 100) as nat) =~= seq![(48 + v / 100) as u8]);
            assert(dec_of((v / 10) as nat) =~= seq![(48 + v / 100) as u8, (48 + (v / 10) % 10) as u8]);
            assert(r@ =~= dec_of(v as nat));
        }
        r
    }
}

/// The text of `true` and `false` as the kernel files hold them: the single
/// byte `1` or `0`.
pub open spec fn bool_bytes(b: bool) -> Seq<u8> {
    if b {
        seq![49u8]
    } else {
        seq![48u8]
    }
}

/// Render a boolean as the single byte `1` or `0`.
pub fn bool_to_bytes(b: bool) -> (r: Vec<u8>)
    ensures
        r@ == bool_bytes(b),
{
    let r: Vec<u8> = if b {
        vec![49]
    } else {
        vec![48]
    };
    assert(r@ =~= bool_bytes(b));
    r
}

proof fn lemma_dec_of_digits(n: nat)
    ensures
        dec_of(n).len() > 0,
        all_digits(dec_of(n)),
        n < 10 ==> dec_of(n).len() == 1,
    decreases n,
{
    if n >= 10 {
        lemma_dec_of_digits(n / 10);
        assert forall|i: int| 0 <= i < dec_of(n).len() implies is_digit(dec_of(n)[i]) by {
            if i < dec_of(n / 10).len() {
                assert(dec_of(n)[i] == dec_of(n / 10)[i]);
            }
        }
    }
}

proof fn lemma_dec_of_value(n: nat)
    ensures
        digits_value(dec_of(n)) == n,
    decreases n,
{
    if n < 10 {
        assert(digits_value(Seq::<u8>::empty()) == 0);
        assert(dec_of(n).drop_last() =~= Seq::<u8>::empty());
        assert(dec_of(n).last() == 48 + n);
    } else {
        lemma_dec_of_value(n / 10);
        assert(dec_of(n).drop_last() =~= dec_of(n / 10));
        assert(digits_value(dec_of(n)) == (n / 10) * 10 + n % 10);
        vstd::arithmetic::div_mod::lemma_fundamental_div_mod(n as int, 10);
    }
}

/// The canonical decimal text of a `u8` parses back to the same value: writing
/// a parameter and reading it again round-trips.
pub proof fn lemma_parse_dec_roundtrip(v: u8)
    ensures
        parse_u8_spec(trim_spec(dec_of(v as nat))) == Some(v),
{
    let s = dec_of(v as nat);
    lemma_dec_of_digits(v as nat);
    lemma_dec_of_value(v as nat);
    assert(is_digit(s[0]));
    assert(!is_space(s[0]) && !is_space(s[s.len() - 1]));
    lemma_trim_subrange(s, 0, s.len() as int);
    assert(s.subrange(0, s.len() as int) =~= s);
    assert(s[0] != 43);
}

/// The single byte written for a boolean parses back to the number it stands
/// for: `1` for `true`, `0` for `false`.
pub proof fn lemma_parse_bool_roundtrip(b: bool)
    ensures
        parse_u8_spec(trim_spec(bool_bytes(b))) == (if b { Some(1u8) } else { Some(0u8) }),
{
    let s = bool_bytes(b);
    assert(!is_space(s[0]));
    lemma_trim_subrange(s, 0, s.len() as int);
    assert(s.subrange(0, s.len() as int) =~= s);
    assert(digits_value(s) == s.last() - 48) by {
        assert(digits_value(Seq::<u8>::empty()) == 0);
        assert(s.drop_last() =~= Seq::<u8>::empty());
    }
}

} // verus!

