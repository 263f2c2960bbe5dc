//! Decimal rendering of numbers and bounded text buffers, as the controller
//! writes them into its fixed-size byte strings.
use vstd::prelude::*;

verus! {

/// The ASCII decimal digits of `v`, without leading zeros.
pub open spec fn decimal_digits(v: nat) -> Seq<u8>
    decreases v,
{
    if v < 10 {
        seq![(48 + v) as u8]
    } else {
        decimal_digits(v / 10).push((48 + v % 10) as u8)
    }
}

/// `n` ASCII zeros.
pub open spec fn zeros(n: nat) -> Seq<u8> {
    Seq::new(n, |i: int| 48u8)
}

/// `v` written in decimal with at least `width` characters: a `-` for a
/// negative value, then zeros, then the digits (as Rust's `{:0width$}`).
pub open spec fn padded_decimal(v: int, width: nat) -> Seq<u8> {
    let sign: Seq<u8> = if v < 0 { seq![45u8] } else { Seq::empty() };
    let digits = decimal_digits(if v < 0 { (-v) as nat } else { v as nat });
    let fill: int = width - sign.len() - digits.len();
    sign + zeros(if fill > 0 { fill as nat } else { 0 }) + digits
}

/// At most `cap` leading bytes of `s`.
pub open spec fn capped(s: Seq<u8>, cap: nat) -> Seq<u8> {
    if s.len() <= cap { s } else { s.take(cap as int) }
}

/// A copy of a byte string.
pub fn copy_bytes(v: &Vec<u8>) -> (r: Vec<u8>)
    ensures
        r@ == v@,
{
    let r = v.clone();
    assert(r@ =~= v@);
    r
}

/// Appends the decimal digits of `v`.
pub fn push_decimal(out: &mut Vec<u8>, v: u64)
    ensures
        final(out)@ == old(out)@ + decimal_digits(v as nat),
    decreases v,
{
    if v >= 10 {
        push_decimal(out, v / 10);
    }
    let d: u8 = (v % 10) as u8;
    out.push(48u8 + d);
    proof {
        if v < 10 {
            assert(decimal_digits(v as nat) =~= seq![(48 + v) as u8]);
        }
    }
    assert(final(out)@ =~= old(out)@ + decimal_digits(v as nat)) by {
        if v >= 10 {
            assert(decimal_digits(v as nat) == decimal_digits((v / 10) as nat).push((48 + v % 10) as u8));
        }
    }
}

/// The decimal digits of `v`, as a new buffer.
pub fn decimal(v: u64) -> (r: Vec<u8>)
    ensures
        r@ == decimal_digits(v as nat),
{
    let mut out: Vec<u8> = Vec::new();
    push_decimal(&mut out, v);
    assert(out@ =~= decimal_digits(v as nat));
    out
}

/// Ten to the power `n`.
pub open spec fn pow10(n: nat) -> nat
    decreases n,
{
    if n == 0 { 1 } else { 10 * pow10((n - 1) as nat) }
}

proof fn lemma_decimal_len(v: nat, n: nat)
    requires
        n >= 1,
        v < pow10(n),
    ensures
        1 <= decimal_digits(v).len() <= n,
    decreases v,
{
    if v >= 10 {
        let p = pow10((n - 1) as nat);
        assert(n >= 2) by {
            if n == 1 {
                assert(pow10(1) == 10 * pow10(0));
            }
        }
        assert(v < 10 * p);
        assert(v / 10 < p) by (nonlinear_arith)
            requires v < 10 * p;
        lemma_decimal_len(v / 10, (n - 1) as nat);
    }
}

proof fn lemma_u64_fits_twenty_digits(v: u64)
    ensures
        1 <= decimal_digits(v as nat).len() <= 20,
{
    reveal_with_fuel(pow10, 21);
    assert(pow10(20) == 100_000_000_000_000_000_000nat);
    lemma_decimal_len(v as nat, 20);
}

/// Appends `v` zero-padded to `width` characters (see `padded_decimal`).
pub fn push_padded(out: &mut Vec<u8>, v: i64, width: usize)
    requires
        width <= 64,
    ensures
        final(out)@ == old(out)@ + padded_decimal(v as int, width as nat),
{
    let magnitude: u64 = if v < 0 {
        if v == i64::MIN { 0x8000_0000_0000_0000u64 } else { (-v) as u64 }
    } else {
        v as u64
    };
    let digits = decimal(magnitude);
    proof {
        lemma_u64_fits_twenty_digits(magnitude);
    }
    let sign_len: usize = if v < 0 { 1 } else { 0 };
    if v < 0 {
        out.push(45u8);
    }
    let ghost start = out@;
    let mut k: usize = sign_len + digits.len();
    while k < width
        invariant
            sign_len + digits@.len() <= k,
            k <= width || k == sign_len + digits@.len(),
            out@ == start + zeros((k - sign_len - digits@.len()) as nat),
        decreases width - k,
    {
        out.push(48u8);
        k = k + 1;
        assert(out@ =~= start + zeros((k - sign_len - digits@.len()) as nat));
    }
    let ghost mid = out@;
    let mut i: usize = 0;
    while i < digits.len()
        invariant
            0 <= i <= digits@.len(),
            out@ == mid + digits@.take(i as int),
        decreases digits.len() - i,
    {
        out.push(digits[i]);
        i = i + 1;
        assert(out@ =~= mid + digits@.take(i as int));
    }
    assert(digits@.take(i as int) =~= digits@);
    let ghost fill: int = width - sign_len - digits@.len();
    assert(zeros((k - sign_len - digits@.len()) as nat) =~= zeros(if fill > 0 { fill as nat } else { 0 }));
    assert(final(out)@ =~= old(out)@ + padded_decimal(v as int, width as nat));
}

/// Appends the bytes of `s` while the buffer holds fewer than `cap` bytes,
/// as a fixed-size byte string takes text that may overflow it.
pub fn append_capped(out: &mut Vec<u8>, s: &[u8], cap: usize)
    requires
        old(out)@.len() <= cap,
    ensures
        final(out)@ == capped(old(out)@ + s@, cap as nat),
{
    let ghost start = out@;
    let mut i: usize = 0;
    while i < s.len() && out.len() < cap
        invariant
            0 <= i <= s@.len(),
            out@ == start + s@.take(i as int),
            start.len() + i <= cap,
        decreases s.len() - i,
    {
        out.push(s[i]);
        i = i + 1;
        assert(out@ =~= start + s@.take(i as int));
    }
    if i == s.len() {
        assert(s@.take(i as int) =~= s@);
    } else {
        assert(capped(start + s@, cap as nat) =~= start + s@.take(i as int));
    }
}

/// The bytes of a text, one per character (the texts of the display are
/// ASCII).
pub fn ascii_bytes(text: &str) -> (r: Vec<u8>)
    ensures
        r@ == text@.map_values(|c: char| c as u8),
{
    let mut out: Vec<u8> = Vec::new();
    let mut i: usize = 0;
    let n = text.unicode_len();
    while i < n
        invariant
            0 <= i <= n,
            n == text@.len(),
            out@ =~= text@.take(i as int).map_values(|c: char| c as u8),
        decreases n - i,
    {
        let c = text.get_char(i);
        out.push(c as u8);
        i = i + 1;
        assert(out@ =~= text@.take(i as int).map_values(|c: char| c as u8));
    }
    assert(text@.take(i as int) =~= text@);
    out
}

} // verus!
