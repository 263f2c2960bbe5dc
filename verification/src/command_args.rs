//! Arguments of an AT command line (`AT+CMD=<a0>,<a1>,...`) and the decimal
//! numbers they carry.
use vstd::prelude::*;
use crate::text_format::decimal_digits;

verus! {

/// The `index`-th argument (0-based) of the raw argument text of an AT
/// command, as at-parser-rs's `Args::get` splits it (commas inside double
/// quotes do not split, surrounding quotes are removed and `\"` is decoded),
/// taken as its UTF-8 bytes; `None` when there are fewer arguments.
pub uninterp spec fn at_argument(raw: Seq<char>, index: usize) -> Option<Seq<u8>>;

/// Calls at-parser-rs's `Args::get(index)` on `Args { raw }` and hands back
/// the UTF-8 bytes of the argument. The contract claims only that the result
/// is the function `at_argument` of the raw text and the index; the splitting
/// rules themselves are not stated.
#[verifier::external_body]
pub(crate) fn command_arg(raw: &str, index: usize) -> (r: Option<Vec<u8>>)
    ensures
        r is Some <==> at_argument(raw@, index) is Some,
        r matches Some(v) ==> v@ == at_argument(raw@, index).unwrap(),
{
    match (at_parser_rs::Args { raw }).get(index) {
        Some(arg) => Some(arg.as_bytes().to_vec()),
        None => None,
    }
}

/// The arguments `0..4` of an AT command, fetched in one go.
pub fn command_args4(raw: &str) -> (r: [Option<Vec<u8>>; 4])
    ensures
        forall|i: int| 0 <= i < 4 ==> (#[trigger] r[i] is Some <==> at_argument(raw@, i as usize) is Some),
        forall|i: int| 0 <= i < 4 ==> (#[trigger] r[i] matches Some(v) ==> v@ == at_argument(raw@, i as usize).unwrap()),
{
    let a0 = command_arg(raw, 0);
    let a1 = command_arg(raw, 1);
    let a2 = command_arg(raw, 2);
    let a3 = command_arg(raw, 3);
    [a0, a1, a2, a3]
}

/// Whether `b` is an ASCII decimal digit.
pub open spec fn is_digit(b: u8) -> bool {
    48 <= b <= 57
}

/// The value of a string of decimal digits, most significant first.
pub open spec fn digits_value(s: Seq<u8>) -> nat
    decreases s.len(),
{
    if s.len() == 0 {
        0
    } else {
        digits_value(s.drop_last()) * 10 + (s.last() - 48) as nat
    }
}

/// The text without its leading `+`, when it has one.
pub open spec fn strip_plus(s: Seq<u8>) -> Seq<u8> {
    if s.len() > 0 && s[0] == 43 { s.drop_first() } else { s }
}

/// How Rust's `str::parse` reads an unsigned integer no larger than `max`:
/// an optional `+`, then at least one decimal digit and nothing else, with a
/// value that fits.
pub open spec fn parse_unsigned_spec(s: Seq<u8>, max: nat) -> Option<nat> {
    let d = strip_plus(s);
    if d.len() > 0 && (forall|i: int| 0 <= i < d.len() ==> is_digit(#[trigger] d[i])) && digits_value(d) <= max {
        Some(digits_value(d))
    } else {
        None
    }
}

proof fn lemma_digits_value_prefix(d: Seq<u8>, i: int)
    requires
        0 <= i <= d.len(),
    ensures
        digits_value(d.take(i)) <= digits_value(d),
    decreases d.len() - i,
{
    if i < d.len() {
        lemma_digits_value_prefix(d, i + 1);
        assert(d.take(i + 1).drop_last() =~= d.take(i));
    } else {
        assert(d.take(i) =~= d);
    }
}

/// Reads an unsigned decimal number no larger than `max` (see
/// `parse_unsigned_spec`).
pub fn parse_unsigned(s: &Vec<u8>, max: u64) -> (r: Option<u64>)
    ensures
        match parse_unsigned_spec(s@, max as nat) {
            Some(v) => r == Some(v as u64),
            None => r is None,
        },
{
    let ghost d = strip_plus(s@);
    let start: usize = if s.len() > 0 && s[0] == 43u8 { 1 } else { 0 };
    assert(d =~= s@.skip(start as int));
    if start >= s.len() {
        return None;
    }
    let mut value: u64 = 0;
    let mut i: usize = start;
    while i < s.len()
        invariant
            start <= i <= s.len(),
            d =~= s@.skip(start as int),
            d == strip_plus(s@),
            value as nat == digits_value(d.take(i - start)),
            value <= max,
            forall|j: int| 0 <= j < i - start ==> is_digit(#[trigger] d[j]),
        decreases s.len() - i,
    {
        let b = s[i];
        assert(d[i - start] == b);
        assert(d.take(i - start + 1).drop_last() =~= d.take(i - start));
        if b < 48u8 || b > 57u8 {
            assert(!is_digit(d[i - start]));
            return None;
        }
        let next: u128 = (value as u128) * 10 + (b - 48u8) as u128;
        assert(d.take(i - start + 1).last() == b);
        assert(digits_value(d.take(i - start + 1)) == next);
        if next > max as u128 {
            proof {
                lemma_digits_value_prefix(d, i - start + 1);
            }
            return None;
        }
        value = next as u64;
        i = i + 1;
    }
    assert(d.take(i - start) =~= d);
    Some(value)
}

/// Whether two byte strings are equal.
pub fn bytes_eq(a: &Vec<u8>, b: &Vec<u8>) -> (r: bool)
    ensures
        r == (a@ == b@),
{
    if a.len() != b.len() {
        return false;
    }
    let mut i: usize = 0;
    while i < a.len()
        invariant
            a@.len() == b@.len(),
            0 <= i <= a@.len(),
            forall|j: int| 0 <= j < i ==> a@[j] == b@[j],
        decreases a.len() - i,
    {
        if a[i] != b[i] {
            return false;
        }
        i = i + 1;
    }
    assert(a@ =~= b@);
    true
}

proof fn lemma_decimal_digits_value(v: nat)
    ensures
        decimal_digits(v).len() > 0,
        forall|i: int| 0 <= i < decimal_digits(v).len() ==> is_digit(#[trigger] decimal_digits(v)[i]),
        digits_value(decimal_digits(v)) == v,
    decreases v,
{
    if v >= 10 {
        lemma_decimal_digits_value(v / 10);
        let prev = decimal_digits(v / 10);
        let d = decimal_digits(v);
        assert(d == prev.push((48 + v % 10) as u8));
        assert(d.drop_last() =~= prev);
        assert forall|i: int| 0 <= i < d.len() implies is_digit(#[trigger] d[i]) by {
            if i < prev.len() {
                assert(d[i] == prev[i]);
            }
        }
        assert(d.last() == (48 + v % 10) as u8);
        assert(digits_value(d) == digits_value(prev) * 10 + (d.last() - 48) as nat);
        assert((v / 10) * 10 + v % 10 == v);
    } else {
        let d = decimal_digits(v);
        assert(d == seq![(48 + v) as u8]);
        assert(d.drop_last() =~= Seq::<u8>::empty());
        assert(digits_value(d) == digits_value(d.drop_last()) * 10 + (d.last() - 48) as nat);
    }
}

/// A number written in decimal reads back as the same number, whenever it
/// does not exceed the bound of the reading.
pub proof fn lemma_decimal_reads_back(v: nat, max: nat)
    requires
        v <= max,
    ensures
        parse_unsigned_spec(decimal_digits(v), max) == Some(v),
{
    lemma_decimal_digits_value(v);
    let d = decimal_digits(v);
    assert(is_digit(d[0]));
    assert(strip_plus(d) == d);
}

} // verus!
