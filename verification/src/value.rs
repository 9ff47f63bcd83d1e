//! Integer and sized bit-vector literals.
//!
//! An integer is an optional leading minus sign followed by one or more
//! decimal digits, decoded as a signed 32-bit value; a magnitude above
//! `i32::MAX` fails the parse.  A sized bit-vector value is a decimal bit
//! width, a single quote, and zero or more bit characters drawn from
//! `0 1 x z m -` (the multi-valued symbols also in upper case).  The bit
//! characters are written most-significant bit last, so decoding reverses
//! them; when the declared width disagrees with the number of bit
//! characters, a single supplied bit is replicated to the declared width,
//! and any other mismatch fails the parse.

use vstd::prelude::*;

verus! {

pub open spec fn is_dec_char(c: char) -> bool {
    48 <= (c as u32) <= 57
}

pub open spec fn dec_char_val(c: char) -> int {
    c as u32 - 48
}

pub open spec fn is_bin_char(c: char) -> bool {
    c == '0' || c == '1' || c == 'x' || c == 'X' || c == 'z' || c == 'Z' || c == 'm' || c == 'M'
        || c == '-'
}

/// First position at or after `i` that does not hold a decimal digit.
pub open spec fn spec_skip_dec(s: Seq<char>, i: int) -> int
    decreases s.len() - i,
{
    if 0 <= i < s.len() && is_dec_char(s[i]) {
        spec_skip_dec(s, i + 1)
    } else {
        i
    }
}

pub proof fn lemma_spec_skip_dec(s: Seq<char>, i: int)
    requires
        0 <= i <= s.len(),
    ensures
        i <= spec_skip_dec(s, i) <= s.len(),
        forall|m: int| i <= m < spec_skip_dec(s, i) ==> is_dec_char(s[m]),
    decreases s.len() - i,
{
    if i < s.len() && is_dec_char(s[i]) {
        lemma_spec_skip_dec(s, i + 1);
    }
}

/// Value of the decimal digits of `s` between `i` and `j`.
pub open spec fn spec_dec_val(s: Seq<char>, i: int, j: int) -> int
    decreases j - i,
{
    if i < j {
        spec_dec_val(s, i, j - 1) * 10 + dec_char_val(s[j - 1])
    } else {
        0
    }
}

/// Over decimal digits the value is non-negative and grows with the length
/// of the digit run; in particular a prefix already above some bound keeps
/// the whole run above it.
pub proof fn lemma_spec_dec_val_mono(s: Seq<char>, i: int, k: int, j: int)
    requires
        i <= k <= j,
        forall|m: int| i <= m < j ==> is_dec_char(s[m]) && 0 <= m < s.len(),
    ensures
        0 <= spec_dec_val(s, i, k) <= spec_dec_val(s, i, j),
    decreases j - k,
{
    if k == j {
        lemma_spec_dec_val_nonneg(s, i, k);
    } else {
        lemma_spec_dec_val_mono(s, i, k, j - 1);
        lemma_spec_dec_val_nonneg(s, i, j - 1);
    }
}

pub proof fn lemma_spec_dec_val_nonneg(s: Seq<char>, i: int, j: int)
    requires
        forall|m: int| i <= m < j ==> is_dec_char(s[m]) && 0 <= m < s.len(),
    ensures
        0 <= spec_dec_val(s, i, j),
    decreases j - i,
{
    if i < j {
        lemma_spec_dec_val_nonneg(s, i, j - 1);
    }
}

/// A single decimal digit.
pub open spec fn spec_decimal_digit(s: Seq<char>, i: int) -> Option<(char, int)> {
    if 0 <= i < s.len() && is_dec_char(s[i]) {
        Some((s[i], i + 1))
    } else {
        None
    }
}

/// Consume a single decimal digit.
pub fn decimal_digit(input: &Vec<char>, pos: usize) -> (r: Option<(char, usize)>)
    requires
        pos <= input@.len(),
    ensures
        match r {
            Some((c, p)) => spec_decimal_digit(input@, pos as int) == Some((c, p as int)) && pos
                < p <= input@.len(),
            None => spec_decimal_digit(input@, pos as int) is None,
        },
{
    if pos < input.len() && 48 <= input[pos] as u32 && input[pos] as u32 <= 57 {
        Some((input[pos], pos + 1))
    } else {
        None
    }
}

/// A single bit character.
pub open spec fn spec_binary_digit(s: Seq<char>, i: int) -> Option<(char, int)> {
    if 0 <= i < s.len() && is_bin_char(s[i]) {
        Some((s[i], i + 1))
    } else {
        None
    }
}

/// Whether `c` is a bit character.
fn is_bin(c: char) -> (r: bool)
    ensures
        r == is_bin_char(c),
{
    c == '0' || c == '1' || c == 'x' || c == 'X' || c == 'z' || c == 'Z' || c == 'm' || c == 'M'
        || c == '-'
}

/// Consume a single bit character.
pub fn binary_digit(input: &Vec<char>, pos: usize) -> (r: Option<(char, usize)>)
    requires
        pos <= input@.len(),
    ensures
        match r {
            Some((c, p)) => spec_binary_digit(input@, pos as int) == Some((c, p as int)) && pos < p
                <= input@.len(),
            None => spec_binary_digit(input@, pos as int) is None,
        },
{
    if pos < input.len() && is_bin(input[pos]) {
        Some((input[pos], pos + 1))
    } else {
        None
    }
}

/// Decode a run of decimal digits, failing when there is no digit at `pos`
/// or the value exceeds `cap`.
fn dec_run_value(input: &Vec<char>, pos: usize, cap: u64) -> (r: Option<(u64, usize)>)
    requires
        pos <= input@.len(),
        cap >= 9,
    ensures
        match r {
            Some((v, p)) => {
                &&& p as int == spec_skip_dec(input@, pos as int)
                &&& v as int == spec_dec_val(input@, pos as int, p as int)
                &&& v <= cap
                &&& pos < p <= input@.len()
            },
            None => !(0 <= pos < input@.len() && is_dec_char(input@[pos as int])) || spec_dec_val(
                input@,
                pos as int,
                spec_skip_dec(input@, pos as int),
            ) > cap,
        },
{
    if !(pos < input.len() && 48 <= input[pos] as u32 && input[pos] as u32 <= 57) {
        return None;
    }
    let mut acc: u64 = 0;
    let mut cur: usize = pos;
    while cur < input.len() && 48 <= input[cur] as u32 && input[cur] as u32 <= 57
        invariant
            pos <= cur <= input@.len(),
            acc <= cap,
            acc as int == spec_dec_val(input@, pos as int, cur as int),
            spec_skip_dec(input@, pos as int) == spec_skip_dec(input@, cur as int),
            forall|m: int| pos <= m < cur ==> is_dec_char(input@[m]),
        decreases input@.len() - cur,
    {
        let d = (input[cur] as u32 - 48) as u64;
        let wide: u128 = acc as u128 * 10 + d as u128;
        proof {
            assert(dec_char_val(input@[cur as int]) == d);
            assert(spec_dec_val(input@, pos as int, cur + 1) == acc * 10 + d);
        }
        if wide > cap as u128 {
            proof {
                let j = spec_skip_dec(input@, pos as int);
                assert(spec_skip_dec(input@, cur as int) == spec_skip_dec(input@, cur + 1));
                lemma_spec_skip_dec(input@, cur + 1);
                lemma_spec_skip_dec(input@, cur as int);
                assert forall|m: int| pos <= m < j implies is_dec_char(input@[m]) && 0 <= m
                    < input@.len() by {
                    if m < cur {
                    } else {
                        assert(cur <= m < spec_skip_dec(input@, cur as int));
                    }
                }
                lemma_spec_dec_val_mono(input@, pos as int, cur + 1, j);
            }
            return None;
        }
        acc = wide as u64;
        cur += 1;
    }
    Some((acc, cur))
}

/// An integer literal: an optional minus sign and one or more decimal
/// digits, decoded as a 32-bit signed value.  A magnitude above `i32::MAX`
/// does not decode.
pub open spec fn spec_integer(s: Seq<char>, i: int) -> Option<(i32, int)> {
    let neg = 0 <= i < s.len() && s[i] == '-';
    let i1 = if neg {
        i + 1
    } else {
        i
    };
    if 0 <= i1 < s.len() && is_dec_char(s[i1]) {
        let j = spec_skip_dec(s, i1);
        let v = spec_dec_val(s, i1, j);
        if v <= 2147483647 {
            Some(
                (
                    if neg {
                        (-v) as i32
                    } else {
                        v as i32
                    },
                    j,
                ),
            )
        } else {
            None
        }
    } else {
        None
    }
}

/// Consume an integer literal.
pub fn integer(input: &Vec<char>, pos: usize) -> (r: Option<(i32, usize)>)
    requires
        pos <= input@.len(),
    ensures
        match r {
            Some((v, p)) => spec_integer(input@, pos as int) == Some((v, p as int)) && pos < p
                <= input@.len(),
            None => spec_integer(input@, pos as int) is None,
        },
{
    let mut cur: usize = pos;
    let mut neg: bool = false;
    if cur < input.len() && input[cur] == '-' {
        neg = true;
        cur += 1;
    }
    match dec_run_value(input, cur, 2147483647) {
        Some((v, p)) => {
            let m = v as i32;
            if neg {
                Some((-m, p))
            } else {
                Some((m, p))
            }
        },
        None => None,
    }
}

/// The bit characters reversed to most-significant-bit-first order when
/// their number equals the declared width; a single supplied bit replicated
/// to the declared width; any other mismatch fails.
pub open spec fn spec_decode_bits(w: nat, bits: Seq<char>) -> Option<Seq<char>> {
    if bits.len() == w {
        Some(bits.reverse())
    } else if bits.len() == 1 {
        Some(Seq::new(w, |i: int| bits[0]))
    } else {
        None
    }
}

/// First position at or after `i` that does not hold a bit character.
pub open spec fn spec_skip_bin(s: Seq<char>, i: int) -> int
    decreases s.len() - i,
{
    if 0 <= i < s.len() && is_bin_char(s[i]) {
        spec_skip_bin(s, i + 1)
    } else {
        i
    }
}

/// A sized bit-vector literal: the decimal width, a single quote, and the
/// bit characters, decoded by [`spec_decode_bits`].  A width that does not
/// fit the machine's vector length does not decode.
pub open spec fn spec_value(s: Seq<char>, i: int) -> Option<(Seq<char>, int)> {
    if 0 <= i < s.len() && is_dec_char(s[i]) {
        let j = spec_skip_dec(s, i);
        let w = spec_dec_val(s, i, j);
        if w <= usize::MAX {
            if j < s.len() && s[j] == '\'' {
                let k = spec_skip_bin(s, j + 1);
                let bits = s.subrange(j + 1, k);
                match spec_decode_bits(w as nat, bits) {
                    Some(decoded) => Some((decoded, k)),
                    None => None,
                }
            } else {
                None
            }
        } else {
            None
        }
    } else {
        None
    }
}

/// Consume a sized bit-vector literal, yielding the decoded bits,
/// most-significant bit first.
pub fn value(input: &Vec<char>, pos: usize) -> (r: Option<(Vec<char>, usize)>)
    requires
        pos <= input@.len(),
    ensures
        match r {
            Some((bits, p)) => spec_value(input@, pos as int) == Some((bits@, p as int)) && pos < p
                <= input@.len(),
            None => spec_value(input@, pos as int) is None,
        },
{
    let (w, j) = match dec_run_value(input, pos, usize::MAX as u64) {
        Some(x) => x,
        None => {
            return None;
        },
    };
    if !(j < input.len() && input[j] == '\'') {
        return None;
    }
    let mut bits: Vec<char> = Vec::new();
    let mut cur: usize = j + 1;
    while cur < input.len() && is_bin(input[cur])
        invariant
            j + 1 <= cur <= input@.len(),
            bits@ =~= input@.subrange(j + 1, cur as int),
            spec_skip_bin(input@, j + 1) == spec_skip_bin(input@, cur as int),
        decreases input@.len() - cur,
    {
        bits.push(input[cur]);
        proof {
            assert(bits@ =~= input@.subrange(j + 1, cur + 1));
        }
        cur += 1;
    }
    proof {
        assert(cur as int == spec_skip_bin(input@, j + 1));
        assert(bits@ =~= input@.subrange(j + 1, cur as int));
    }
    if bits.len() as u64 == w {
        let mut rev: Vec<char> = Vec::new();
        let mut k: usize = bits.len();
        while k > 0
            invariant
                k <= bits@.len(),
                rev@ =~= bits@.subrange(k as int, bits@.len() as int).reverse(),
            decreases k,
        {
            k -= 1;
            rev.push(bits[k]);
            proof {
                assert(rev@ =~= bits@.subrange(k as int, bits@.len() as int).reverse());
            }
        }
        proof {
            assert(rev@ =~= bits@.reverse());
        }
        Some((rev, cur))
    } else if bits.len() == 1 {
        let b = bits[0];
        let wn = w as usize;
        let mut out: Vec<char> = Vec::new();
        let mut k: usize = 0;
        while k < wn
            invariant
                k <= wn,
                b == bits@[0],
                wn as int == w as int,
                out@ =~= Seq::new(k as nat, |i: int| b),
            decreases wn - k,
        {
            out.push(b);
            proof {
                assert(out@ =~= Seq::new((k + 1) as nat, |i: int| b));
            }
            k += 1;
        }
        proof {
            assert(Seq::new(w as nat, |i: int| b) =~= Seq::new(
                w as nat,
                |i: int| input@.subrange(j + 1, cur as int)[0],
            ));
        }
        Some((out, cur))
    } else {
        None
    }
}

/// The unsigned machine-word reinterpretation of a parsed integer:
/// negative values wrap around, as in a two's-complement cast.
pub open spec fn spec_wrap_index(v: i32) -> usize {
    if v >= 0 {
        v as usize
    } else {
        (v + usize::MAX + 1) as usize
    }
}

/// Reinterpret a parsed integer as an unsigned machine word.
pub fn wrap_index(v: i32) -> (r: usize)
    ensures
        r == spec_wrap_index(v),
{
    if v >= 0 {
        v as usize
    } else {
        let w: i128 = (v as i128) + (usize::MAX as i128) + 1;
        w as usize
    }
}

/// Decoding law for sized bit-vector literals: when the bit characters
/// number exactly the declared width, the decoded value is those
/// characters reversed (most-significant bit first); when exactly one bit
/// character is supplied, it is replicated to the declared width; any
/// other mismatch fails to decode.
pub proof fn lemma_decode_bits(w: nat, bits: Seq<char>)
    ensures
        bits.len() == w ==> spec_decode_bits(w, bits) == Some(bits.reverse()),
        bits.len() == 1 && bits.len() != w ==> spec_decode_bits(w, bits) == Some(
            Seq::new(w, |i: int| bits[0]),
        ),
        bits.len() != w && bits.len() != 1 ==> spec_decode_bits(w, bits) is None,
{
}

/// A width of zero with one supplied bit decodes to the empty bit vector,
/// not an error.
pub proof fn lemma_decode_zero_width(bits: Seq<char>)
    requires
        bits.len() == 1,
    ensures
        spec_decode_bits(0, bits) == Some(Seq::<char>::empty()),
{
    assert(Seq::new(0, |i: int| bits[0]) =~= Seq::<char>::empty());
}

/// Integer decoding accepts leading zeros: a leading `0` digit does not
/// change the decoded value.
pub proof fn lemma_dec_val_leading_zero(s: Seq<char>, i: int, j: int)
    requires
        i < j,
        s[i] == '0',
    ensures
        spec_dec_val(s, i, j) == spec_dec_val(s, i + 1, j),
    decreases j - i,
{
    if j == i + 1 {
        assert(spec_dec_val(s, i, j) == spec_dec_val(s, i, i) * 10 + dec_char_val(s[i]));
    } else {
        lemma_dec_val_leading_zero(s, i, j - 1);
    }
}

/// A minus sign followed by digits of value zero decodes to zero: the
/// sign never produces a distinct negative zero.
pub proof fn lemma_integer_minus_zero(s: Seq<char>, i: int)
    requires
        spec_integer(s, i) is Some,
        0 <= i < s.len() && s[i] == '-',
        spec_dec_val(s, i + 1, spec_skip_dec(s, i + 1)) == 0,
    ensures
        spec_integer(s, i) matches Some((v, p)) && v == 0,
{
}

} // verus!
