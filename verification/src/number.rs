//! Decimal numbers as text: reading unsigned integers and fixed-point
//! decimals, and writing unsigned integers.

use crate::text::{lemma_run_len_bounds, rows, run_len, scan_run, CharClass};
use vstd::prelude::*;

verus! {

/// One of the characters `0` to `9`.
pub open spec fn is_digit(c: char) -> bool {
    0x30 <= c as u32 <= 0x39
}

/// The value of a digit character.
pub open spec fn digit_of(c: char) -> nat {
    (c as u32 - 0x30) as nat
}

/// The character of a digit value.
pub open spec fn digit_char(d: nat) -> char {
    ((d + 0x30) as u8) as char
}

/// Every character is a digit.
pub open spec fn all_digits(s: Seq<char>) -> bool {
    forall|i: int| 0 <= i < s.len() ==> is_digit(#[trigger] s[i])
}

/// The number that a sequence of digits denotes in base ten; 0 for none.
pub open spec fn digits_value(s: Seq<char>) -> nat
    decreases s.len(),
{
    if s.len() == 0 {
        0
    } else {
        digits_value(s.drop_last()) * 10 + digit_of(s.last())
    }
}

/// The base-ten digits of a number, without leading zeros.
pub open spec fn digits_of(n: nat) -> Seq<char>
    decreases n,
{
    if n < 10 {
        seq![digit_char(n)]
    } else {
        digits_of(n / 10).push(digit_char(n % 10))
    }
}

/// An unsigned integer literal without its optional leading `+`.
pub open spec fn unsigned_body(s: Seq<char>) -> Seq<char> {
    if s.len() > 0 && s[0] == '+' {
        s.drop_first()
    } else {
        s
    }
}

/// The value of an unsigned integer literal that is at most `max`: an
/// optional `+`, then one or more digits.
pub open spec fn unsigned_of(s: Seq<char>, max: nat) -> Option<nat> {
    let body = unsigned_body(s);
    if body.len() > 0 && all_digits(body) && digits_value(body) <= max {
        Some(digits_value(body))
    } else {
        None
    }
}

/// A fixed-point decimal: `mantissa / 10^scale`, negated if `negative`.
#[derive(Clone, Copy, Debug, PartialEq, Eq, Structural)]
pub struct Decimal {
    /// The literal had a leading `-`.
    pub negative: bool,
    /// All digits of the literal, read as one integer.
    pub mantissa: u64,
    /// Number of digits after the decimal point.
    pub scale: u32,
}

/// The part of a decimal literal after its optional sign.
pub open spec fn decimal_body(s: Seq<char>) -> Seq<char> {
    if s.len() > 0 && (s[0] == '+' || s[0] == '-') {
        s.drop_first()
    } else {
        s
    }
}

/// The digits before the decimal point.
pub open spec fn integer_digits(body: Seq<char>) -> Seq<char> {
    body.take(run_len(body, CharClass::Except('.')))
}

/// The digits after the decimal point; none where there is no point.
pub open spec fn fraction_digits(body: Seq<char>) -> Seq<char> {
    let n = run_len(body, CharClass::Except('.'));
    if 0 <= n < body.len() {
        body.skip(n + 1)
    } else {
        Seq::empty()
    }
}

/// The value of a decimal literal: an optional sign, digits, and optionally
/// a point and more digits; at least one digit in all.  No exponent, no
/// infinity, no NaN.  A literal whose digits exceed `u64::MAX` as one
/// integer, or with more than `u32::MAX` fraction digits, has no value.
pub open spec fn decimal_of(s: Seq<char>) -> Option<Decimal> {
    let body = decimal_body(s);
    let digits = integer_digits(body) + fraction_digits(body);
    if digits.len() > 0 && all_digits(digits) && digits_value(digits) <= u64::MAX
        && fraction_digits(body).len() <= u32::MAX {
        Some(
            Decimal {
                negative: s.len() > 0 && s[0] == '-',
                mantissa: digits_value(digits) as u64,
                scale: fraction_digits(body).len() as u32,
            },
        )
    } else {
        None
    }
}

/// A number without its last `k` decimal digits.
pub open spec fn drop_digits(m: nat, k: nat) -> nat
    decreases k,
{
    if k == 0 {
        m
    } else {
        drop_digits(m / 10, (k - 1) as nat)
    }
}

/// Appending a digit multiplies by ten and adds it.
pub proof fn lemma_digits_value_push(s: Seq<char>, c: char)
    ensures
        digits_value(s.push(c)) == digits_value(s) * 10 + digit_of(c),
{
    assert(s.push(c).drop_last() =~= s);
}

/// The value of a prefix of digits is at most the value of the whole.
pub proof fn lemma_digits_value_prefix(s: Seq<char>, k: int)
    requires
        0 <= k <= s.len(),
    ensures
        digits_value(s.take(k)) <= digits_value(s),
    decreases s.len() - k,
{
    if k == s.len() {
        assert(s.take(k) =~= s);
    } else {
        lemma_digits_value_prefix(s, k + 1);
        assert(s.take(k + 1).drop_last() =~= s.take(k));
    }
}

/// Once a number has no digits left, dropping more leaves zero.
pub proof fn lemma_drop_digits_zero(k: nat)
    ensures
        drop_digits(0, k) == 0,
    decreases k,
{
    if k > 0 {
        lemma_drop_digits_zero((k - 1) as nat);
    }
}

/// The digits of a number denote it.
pub proof fn lemma_digits_of_value(n: nat)
    ensures
        digits_of(n).len() >= 1,
        all_digits(digits_of(n)),
        digits_value(digits_of(n)) == n,
    decreases n,
{
    if n < 10 {
        let s = seq![digit_char(n)];
        assert(s.drop_last() =~= Seq::<char>::empty());
        assert(digits_value(s.drop_last()) == 0);
        assert(is_digit(s[0]));
    } else {
        lemma_digits_of_value(n / 10);
        let p = digits_of(n / 10);
        let c = digit_char(n % 10);
        lemma_digits_value_push(p, c);
        assert(is_digit(c));
        assert forall|i: int| 0 <= i < p.push(c).len() implies is_digit(
            #[trigger] p.push(c)[i],
        ) by {
            if i < p.len() {
                assert(p.push(c)[i] == p[i]);
            }
        }
    }
}

/// Tells whether a character is a digit.
pub fn is_digit_char(c: char) -> (b: bool)
    ensures
        b == is_digit(c),
{
    let n: u32 = c as u32;
    0x30 <= n && n <= 0x39
}

/// Reads the digits at `from..to` as a continuation of digits already read,
/// whose value is `start`.
fn extend_digits(
    s: &[char],
    from: usize,
    to: usize,
    start: u64,
    Ghost(prefix): Ghost<Seq<char>>,
) -> (r: Option<u64>)
    requires
        from <= to <= s@.len(),
        digits_value(prefix) == start,
    ensures
        match r {
            Some(v) => all_digits(s@.subrange(from as int, to as int)) && digits_value(
                prefix + s@.subrange(from as int, to as int),
            ) == v,
            None => !all_digits(s@.subrange(from as int, to as int)) || digits_value(
                prefix + s@.subrange(from as int, to as int),
            ) > u64::MAX,
        },
{
    let ghost sub = s@.subrange(from as int, to as int);
    let mut acc: u64 = start;
    let mut i: usize = from;
    assert(prefix + s@.subrange(from as int, from as int) =~= prefix);
    while i < to
        invariant
            from <= i <= to <= s@.len(),
            sub == s@.subrange(from as int, to as int),
            all_digits(s@.subrange(from as int, i as int)),
            digits_value(prefix + s@.subrange(from as int, i as int)) == acc,
        decreases to - i,
    {
        let c = s[i];
        if !is_digit_char(c) {
            assert(sub[i - from] == c);
            return None;
        }
        let d: u64 = (c as u32 - 0x30) as u64;
        let ghost done = prefix + s@.subrange(from as int, i as int);
        proof {
            lemma_digits_value_push(done, c);
            assert(done.push(c) =~= prefix + s@.subrange(from as int, i + 1));
        }
        if acc > (u64::MAX - d) / 10 {
            proof {
                if all_digits(sub) {
                    let whole = prefix + sub;
                    let k = prefix.len() + (i + 1 - from);
                    assert(whole.take(k) =~= done.push(c));
                    lemma_digits_value_prefix(whole, k);
                }
            }
            return None;
        }
        acc = acc * 10 + d;
        proof {
            let next = s@.subrange(from as int, i + 1);
            assert forall|k: int| 0 <= k < next.len() implies is_digit(#[trigger] next[k]) by {
                if k < i - from {
                    assert(next[k] == s@.subrange(from as int, i as int)[k]);
                }
            }
        }
        i = i + 1;
    }
    assert(s@.subrange(from as int, i as int) =~= sub);
    Some(acc)
}

/// Reads an unsigned integer literal of at most 64 bits.
pub fn parse_u64(s: &[char]) -> (r: Option<u64>)
    ensures
        r is Some <==> unsigned_of(s@, u64::MAX as nat) is Some,
        r is Some ==> unsigned_of(s@, u64::MAX as nat) == Some(r->0 as nat),
{
    let from: usize = if s.len() > 0 && s[0] == '+' {
        1
    } else {
        0
    };
    if from == s.len() {
        return None;
    }
    proof {
        assert(unsigned_body(s@) =~= s@.subrange(from as int, s@.len() as int));
        assert(Seq::<char>::empty() + unsigned_body(s@) =~= unsigned_body(s@));
    }
    extend_digits(s, from, s.len(), 0, Ghost(Seq::empty()))
}

/// Reads an unsigned integer literal of at most 32 bits.
pub fn parse_u32(s: &[char]) -> (r: Option<u32>)
    ensures
        r is Some <==> unsigned_of(s@, u32::MAX as nat) is Some,
        r is Some ==> unsigned_of(s@, u32::MAX as nat) == Some(r->0 as nat),
{
    match parse_u64(s) {
        Some(v) => {
            if v <= 0xFFFF_FFFF {
                Some(v as u32)
            } else {
                None
            }
        },
        None => None,
    }
}

/// Reads a decimal literal.
pub fn parse_decimal(s: &[char]) -> (r: Option<Decimal>)
    ensures
        r == decimal_of(s@),
{
    let from: usize = if s.len() > 0 && (s[0] == '+' || s[0] == '-') {
        1
    } else {
        0
    };
    let negative = s.len() > 0 && s[0] == '-';
    let ghost body = decimal_body(s@);
    let point = scan_run(s, from, CharClass::Except('.'));
    proof {
        assert(body =~= s@.skip(from as int));
        lemma_run_len_bounds(body, CharClass::Except('.'));
        assert(integer_digits(body) =~= s@.subrange(from as int, point as int));
        assert(Seq::<char>::empty() + integer_digits(body) =~= integer_digits(body));
    }
    let ghost int_part = integer_digits(body);
    let ghost frac_part = fraction_digits(body);
    let ghost digits = int_part + frac_part;
    let whole = match extend_digits(s, from, point, 0, Ghost(Seq::empty())) {
        Some(v) => v,
        None => {
            proof {
                if all_digits(digits) {
                    assert forall|i: int| 0 <= i < int_part.len() implies is_digit(
                        #[trigger] int_part[i],
                    ) by {
                        assert(int_part[i] == digits[i]);
                    }
                    assert(digits.take(int_part.len() as int) =~= int_part);
                    lemma_digits_value_prefix(digits, int_part.len() as int);
                }
            }
            return None;
        },
    };
    let frac_from: usize = if point < s.len() {
        point + 1
    } else {
        point
    };
    proof {
        assert(frac_part =~= s@.subrange(frac_from as int, s@.len() as int));
    }
    let mantissa = match extend_digits(s, frac_from, s.len(), whole, Ghost(int_part)) {
        Some(v) => v,
        None => {
            proof {
                if all_digits(digits) {
                    assert forall|i: int| 0 <= i < frac_part.len() implies is_digit(
                        #[trigger] frac_part[i],
                    ) by {
                        assert(frac_part[i] == digits[int_part.len() + i]);
                    }
                }
            }
            return None;
        },
    };
    proof {
        assert forall|i: int| 0 <= i < digits.len() implies is_digit(#[trigger] digits[i]) by {
            if i < int_part.len() {
                assert(digits[i] == int_part[i]);
            } else {
                assert(digits[i] == frac_part[i - int_part.len()]);
            }
        }
    }
    let digit_count = (point - from) + (s.len() - frac_from);
    let frac_len = s.len() - frac_from;
    if digit_count == 0 || frac_len > 0xFFFF_FFFF {
        return None;
    }
    Some(Decimal { negative, mantissa, scale: frac_len as u32 })
}

/// Every field at `from..to` is a decimal literal.
pub open spec fn decimals_at(f: Seq<Seq<char>>, from: int, to: int) -> bool {
    forall|k: int| from <= k < to ==> (#[trigger] decimal_of(f[k])) is Some
}

/// Reads the fields at `from..to` as decimal literals: all of them, or none.
pub fn parse_decimals(fields: &Vec<Vec<char>>, from: usize, to: usize) -> (r: Option<Vec<Decimal>>)
    requires
        from <= to <= fields@.len(),
    ensures
        r is Some <==> decimals_at(rows(fields@), from as int, to as int),
        r matches Some(v) ==> v@.len() == to - from && forall|i: int|
            0 <= i < to - from ==> Some(#[trigger] v@[i]) == decimal_of(rows(fields@)[from + i]),
{
    let mut out: Vec<Decimal> = Vec::new();
    let mut k: usize = from;
    while k < to
        invariant
            from <= k <= to <= fields@.len(),
            out@.len() == k - from,
            decimals_at(rows(fields@), from as int, k as int),
            forall|i: int|
                0 <= i < k - from ==> Some(#[trigger] out@[i]) == decimal_of(
                    rows(fields@)[from + i],
                ),
        decreases to - k,
    {
        match parse_decimal(fields[k].as_slice()) {
            Some(d) => {
                out.push(d);
            },
            None => {
                assert(decimal_of(rows(fields@)[k as int]) is None);
                return None;
            },
        }
        k = k + 1;
    }
    Some(out)
}

impl Decimal {
    /// The integer part of the magnitude.
    pub open spec fn whole(self) -> nat {
        drop_digits(self.mantissa as nat, self.scale as nat)
    }

    /// The value rounded toward zero and brought into the range of `u64`:
    /// zero for a negative value.
    pub open spec fn clamp_u64(self) -> u64 {
        if self.negative {
            0
        } else {
            self.whole() as u64
        }
    }

    /// The value rounded toward zero and brought into the range of `u32`:
    /// zero for a negative value, `u32::MAX` for one above it.
    pub open spec fn clamp_u32(self) -> u32 {
        if self.negative {
            0
        } else if self.whole() > u32::MAX {
            u32::MAX
        } else {
            self.whole() as u32
        }
    }

    /// The integer part of the magnitude.
    pub fn magnitude(&self) -> (w: u64)
        ensures
            w == self.whole(),
    {
        let mut w: u64 = self.mantissa;
        let mut k: u32 = self.scale;
        while k > 0 && w > 0
            invariant
                drop_digits(w as nat, k as nat) == self.whole(),
            decreases k,
        {
            w = w / 10;
            k = k - 1;
        }
        proof {
            if w == 0 {
                lemma_drop_digits_zero(k as nat);
            }
        }
        w
    }

    /// Rounds toward zero into `u64`; a negative value gives zero.
    pub fn to_u64(&self) -> (v: u64)
        ensures
            v == self.clamp_u64(),
    {
        if self.negative {
            0
        } else {
            self.magnitude()
        }
    }

    /// Rounds toward zero into `u32`; a negative value gives zero, one that
    /// is too large gives `u32::MAX`.
    pub fn to_u32(&self) -> (v: u32)
        ensures
            v == self.clamp_u32(),
    {
        if self.negative {
            0
        } else {
            let w = self.magnitude();
            if w > 0xFFFF_FFFF {
                0xFFFF_FFFF
            } else {
                w as u32
            }
        }
    }
}

/// Appends the base-ten digits of `n`.
fn push_digits(n: u64, out: &mut Vec<char>)
    ensures
        final(out)@ == old(out)@ + digits_of(n as nat),
    decreases n,
{
    if n >= 10 {
        push_digits(n / 10, out);
    }
    let d: u8 = (n % 10) as u8;
    out.push((d + 0x30) as char);
    assert(out@ =~= old(out)@ + digits_of(n as nat));
}

/// The base-ten digits of a number.
pub fn u64_to_chars(n: u64) -> (out: Vec<char>)
    ensures
        out@ == digits_of(n as nat),
{
    let mut out: Vec<char> = Vec::new();
    push_digits(n, &mut out);
    assert(Seq::<char>::empty() + digits_of(n as nat) =~= digits_of(n as nat));
    out
}

} // verus!
