//! The count of retired CPU instructions, with explicit wraparound
//! arithmetic.
//!
//! All arithmetic on [`InstructionNumber`] is 64-bit two's-complement
//! arithmetic: on overflow the result wraps, exactly as the native
//! fixed-width signed type does. The wraparound is part of the contract,
//! stated through [`wrap_to_i64`], never a panic.

use vstd::arithmetic::div_mod::{
    lemma_div_nonincreasing, lemma_div_pos_is_pos, lemma_fundamental_div_mod_converse_mod,
    lemma_mod_division_less_than_divisor,
};
use vstd::math::abs;
use vstd::prelude::*;

verus! {

/// The modulus of 64-bit two's-complement arithmetic.
pub open spec fn two_to_64() -> int {
    0x1_0000_0000_0000_0000
}

/// What a mathematical integer becomes when stored into a signed 64-bit
/// word: the unique value congruent to `v` modulo 2^64 that lies in
/// `[i64::MIN, i64::MAX]`.
pub open spec fn wrap_to_i64(v: int) -> int {
    if v % two_to_64() > i64::MAX as int {
        v % two_to_64() - two_to_64()
    } else {
        v % two_to_64()
    }
}

/// Truncated division (the quotient rounded toward zero), the division the
/// native signed 64-bit type performs.
pub open spec fn trunc_div_i64(a: int, b: int) -> int {
    if (a < 0) != (b < 0) {
        -((abs(a) / abs(b)) as int)
    } else {
        (abs(a) / abs(b)) as int
    }
}

/// The remainder matching [`trunc_div_i64`]: it has the sign of the
/// dividend and magnitude below that of the divisor.
pub open spec fn trunc_rem_i64(a: int, b: int) -> int {
    a - b * trunc_div_i64(a, b)
}

/// Wrapping leaves in-range values unchanged and shifts any value less
/// than one modulus out of range by exactly one modulus.
pub proof fn lemma_wrap_to_i64_cases(v: int)
    requires
        -two_to_64() <= v < two_to_64(),
    ensures
        i64::MIN <= v <= i64::MAX ==> wrap_to_i64(v) == v,
        v > i64::MAX ==> wrap_to_i64(v) == v - two_to_64(),
        v < i64::MIN ==> wrap_to_i64(v) == v + two_to_64(),
{
    if 0 <= v {
        lemma_fundamental_div_mod_converse_mod(v, two_to_64(), 0, v);
    } else {
        lemma_fundamental_div_mod_converse_mod(v, two_to_64(), -1, v + two_to_64());
    }
}

/// The number of retired CPU instructions, as a signed 64-bit count.
#[derive(Clone, Copy, Debug, PartialEq, Eq, Structural, Hash, Ord)]
pub struct InstructionNumber {
    /// The raw signed 64-bit count.
    pub raw: i64,
}

impl View for InstructionNumber {
    type V = int;

    open spec fn view(&self) -> int {
        self.raw as int
    }
}

impl PartialOrd for InstructionNumber {
    /// Counts order numerically, by their raw value.
    fn partial_cmp(&self, other: &Self) -> (r: Option<core::cmp::Ordering>) {
        if self.raw < other.raw {
            Some(core::cmp::Ordering::Less)
        } else if self.raw == other.raw {
            Some(core::cmp::Ordering::Equal)
        } else {
            Some(core::cmp::Ordering::Greater)
        }
    }
}

impl vstd::std_specs::cmp::PartialOrdSpecImpl for InstructionNumber {
    open spec fn obeys_partial_cmp_spec() -> bool {
        true
    }

    open spec fn partial_cmp_spec(&self, other: &Self) -> Option<core::cmp::Ordering> {
        if self.raw < other.raw {
            Some(core::cmp::Ordering::Less)
        } else if self.raw == other.raw {
            Some(core::cmp::Ordering::Equal)
        } else {
            Some(core::cmp::Ordering::Greater)
        }
    }
}

impl InstructionNumber {
    /// Wraps a raw signed 64-bit count.
    pub fn new(raw: i64) -> (r: Self)
        ensures
            r@ == raw as int,
    {
        InstructionNumber { raw }
    }

    /// The raw signed 64-bit count back out.
    pub fn raw(&self) -> (r: i64)
        ensures
            r as int == self@,
    {
        self.raw
    }

    /// The zero count, the additive identity.
    pub fn zero() -> (r: Self)
        ensures
            r@ == 0,
    {
        InstructionNumber { raw: 0 }
    }

    /// The largest representable count.
    pub fn max() -> (r: Self)
        ensures
            r@ == i64::MAX as int,
    {
        InstructionNumber { raw: i64::MAX }
    }

    /// Two's-complement sum: wraps on overflow like the native type.
    pub fn wrapping_add(self, rhs: Self) -> (r: Self)
        ensures
            r@ == wrap_to_i64(self@ + rhs@),
    {
        proof {
            lemma_wrap_to_i64_cases(self@ + rhs@);
        }
        InstructionNumber { raw: self.raw.wrapping_add(rhs.raw) }
    }

    /// Two's-complement difference: wraps on overflow like the native type.
    pub fn wrapping_sub(self, rhs: Self) -> (r: Self)
        ensures
            r@ == wrap_to_i64(self@ - rhs@),
    {
        proof {
            lemma_wrap_to_i64_cases(self@ - rhs@);
        }
        InstructionNumber { raw: self.raw.wrapping_sub(rhs.raw) }
    }

    /// Two's-complement product: wraps on overflow like the native type.
    pub fn wrapping_mul(self, rhs: Self) -> (r: Self)
        ensures
            r@ == wrap_to_i64(self@ * rhs@),
    {
        proof {
            lemma_mod_division_less_than_divisor(self@ * rhs@, two_to_64());
        }
        InstructionNumber { raw: self.raw.wrapping_mul(rhs.raw) }
    }

    /// Two's-complement negation; the minimum count negates to itself.
    pub fn wrapping_neg(self) -> (r: Self)
        ensures
            r@ == wrap_to_i64(-self@),
    {
        proof {
            lemma_wrap_to_i64_cases(0 - self@);
        }
        InstructionNumber { raw: 0i64.wrapping_sub(self.raw) }
    }

    /// Truncated quotient; wraps only for the minimum count divided by -1,
    /// like the native type.
    pub fn wrapping_div(self, rhs: Self) -> (r: Self)
        requires
            rhs@ != 0,
        ensures
            r@ == wrap_to_i64(trunc_div_i64(self@, rhs@)),
    {
        let a = magnitude_u64(self.raw);
        let b = magnitude_u64(rhs.raw);
        proof {
            lemma_div_pos_is_pos(a as int, b as int);
            lemma_div_nonincreasing(a as int, b as int);
        }
        let q: u64 = a / b;
        let neg = (self.raw < 0) != (rhs.raw < 0);
        proof {
            lemma_wrap_to_i64_cases(trunc_div_i64(self@, rhs@));
        }
        if q >= 0x8000_0000_0000_0000u64 {
            // The magnitudes cap the quotient at 2^63, reached only for
            // the minimum count divided by 1 or -1; either way the stored
            // result is the minimum count.
            InstructionNumber { raw: i64::MIN }
        } else if neg {
            InstructionNumber { raw: -(q as i64) }
        } else {
            InstructionNumber { raw: q as i64 }
        }
    }

    /// Truncated remainder, with the sign of the dividend, like the native
    /// type; the minimum count modulo -1 is zero.
    pub fn wrapping_rem(self, rhs: Self) -> (r: Self)
        requires
            rhs@ != 0,
        ensures
            r@ == trunc_rem_i64(self@, rhs@),
    {
        let a = magnitude_u64(self.raw);
        let b = magnitude_u64(rhs.raw);
        proof {
            lemma_mod_division_less_than_divisor(a as int, b as int);
            lemma_trunc_rem_by_magnitude(self@, rhs@);
        }
        let m: u64 = a % b;
        if self.raw < 0 {
            InstructionNumber { raw: -(m as i64) }
        } else {
            InstructionNumber { raw: m as i64 }
        }
    }

    /// Adds `rhs` into `self` in place, wrapping like [`Self::wrapping_add`].
    pub fn add_assign(&mut self, rhs: Self)
        ensures
            final(self)@ == wrap_to_i64(old(self)@ + rhs@),
    {
        *self = (*self).wrapping_add(rhs);
    }

    /// Subtracts `rhs` from `self` in place, wrapping like
    /// [`Self::wrapping_sub`].
    pub fn sub_assign(&mut self, rhs: Self)
        ensures
            final(self)@ == wrap_to_i64(old(self)@ - rhs@),
    {
        *self = (*self).wrapping_sub(rhs);
    }

    /// Multiplies `self` by `rhs` in place, wrapping like
    /// [`Self::wrapping_mul`].
    pub fn mul_assign(&mut self, rhs: Self)
        ensures
            final(self)@ == wrap_to_i64(old(self)@ * rhs@),
    {
        *self = (*self).wrapping_mul(rhs);
    }

    /// Divides `self` by `rhs` in place, like [`Self::wrapping_div`].
    pub fn div_assign(&mut self, rhs: Self)
        requires
            rhs@ != 0,
        ensures
            final(self)@ == wrap_to_i64(trunc_div_i64(old(self)@, rhs@)),
    {
        *self = (*self).wrapping_div(rhs);
    }

    /// Reduces `self` modulo `rhs` in place, like [`Self::wrapping_rem`].
    pub fn rem_assign(&mut self, rhs: Self)
        requires
            rhs@ != 0,
        ensures
            final(self)@ == trunc_rem_i64(old(self)@, rhs@),
    {
        *self = (*self).wrapping_rem(rhs);
    }

    /// Sums every count in `values` in order, wrapping on overflow; the
    /// empty slice sums to zero.
    pub fn sum(values: &Vec<InstructionNumber>) -> (r: Self)
        ensures
            r@ == spec_sum(values@),
            values@.len() == 0 ==> r@ == 0,
    {
        let mut acc = InstructionNumber { raw: 0 };
        let mut i: usize = 0;
        while i < values.len()
            invariant
                0 <= i <= values@.len(),
                acc@ == spec_sum(values@.subrange(0, i as int)),
            decreases values@.len() - i,
        {
            acc = acc.wrapping_add(values[i]);
            i = i + 1;
            proof {
                assert(values@.subrange(0, i as int).drop_last() =~= values@.subrange(
                    0,
                    i - 1 as int,
                ));
            }
        }
        proof {
            assert(values@.subrange(0, values@.len() as int) =~= values@);
        }
        acc
    }
}

/// The wrapped running sum of a sequence of counts, left to right; the
/// empty sequence sums to zero.
pub open spec fn spec_sum(s: Seq<InstructionNumber>) -> int
    decreases s.len(),
{
    if s.len() == 0 {
        0
    } else {
        wrap_to_i64(spec_sum(s.drop_last()) + s.last()@)
    }
}

/// The library's wraparound agrees with the native signed 64-bit type's
/// wrapping addition, subtraction and multiplication, as vstd states
/// them: a count built from `a` combined with one built from `b` is the
/// count built from the natively wrapped result.
pub proof fn lemma_matches_native_wrapping(a: i64, b: i64)
    ensures
        wrap_to_i64(a + b) == vstd::wrapping::i64_specs::wrapping_add(a, b) as int,
        wrap_to_i64(a - b) == vstd::wrapping::i64_specs::wrapping_sub(a, b) as int,
        wrap_to_i64(a * b) == vstd::wrapping::i64_specs::wrapping_mul(a, b) as int,
{
    lemma_wrap_to_i64_cases(a + b);
    lemma_wrap_to_i64_cases(a - b);
    lemma_mod_division_less_than_divisor(a * b, two_to_64());
}

/// Round trip: a count constructed from a raw value `n` has view `n`, and
/// any raw value read back from that view is `n` exactly.
pub proof fn lemma_raw_round_trip(n: i64, m: i64)
    requires
        n as int == m as int,
    ensures
        n == m,
{
}

/// Subtracting a count from itself always yields the zero count.
pub proof fn lemma_sub_self_is_zero(a: InstructionNumber)
    ensures
        wrap_to_i64(a@ - a@) == 0,
{
    lemma_wrap_to_i64_cases(0);
}

/// The zero count is the additive identity, on either side.
pub proof fn lemma_zero_identity(x: InstructionNumber)
    ensures
        wrap_to_i64(0 + x@) == x@,
        wrap_to_i64(x@ + 0) == x@,
{
    lemma_wrap_to_i64_cases(x@);
}

impl Default for InstructionNumber {
    /// The default count is the zero count.
    fn default() -> (r: Self)
        ensures
            r@ == 0,
    {
        InstructionNumber { raw: 0 }
    }
}

impl From<i64> for InstructionNumber {
    /// Wraps a raw count, as [`InstructionNumber::new`] does.
    fn from(raw: i64) -> Self {
        InstructionNumber { raw }
    }
}

impl vstd::std_specs::convert::FromSpecImpl<i64> for InstructionNumber {
    open spec fn obeys_from_spec() -> bool {
        true
    }

    open spec fn from_spec(v: i64) -> Self {
        InstructionNumber { raw: v }
    }
}

/// The decimal digit character for `d`, for `d` between 0 and 9.
pub open spec fn digit_char(d: int) -> char {
    if d == 1 {
        '1'
    } else if d == 2 {
        '2'
    } else if d == 3 {
        '3'
    } else if d == 4 {
        '4'
    } else if d == 5 {
        '5'
    } else if d == 6 {
        '6'
    } else if d == 7 {
        '7'
    } else if d == 8 {
        '8'
    } else if d == 9 {
        '9'
    } else {
        '0'
    }
}

/// The decimal digits of a non-negative integer, most significant first,
/// without leading zeros.
pub open spec fn dec_digits(n: int) -> Seq<char>
    decreases n,
{
    if n < 10 {
        seq![digit_char(n)]
    } else {
        dec_digits(n / 10).push(digit_char(n % 10))
    }
}

/// The decimal rendering of a signed count: a minus sign when negative,
/// then the digits of its magnitude.
pub open spec fn dec_string(v: int) -> Seq<char> {
    if v < 0 {
        seq!['-'] + dec_digits(-v)
    } else {
        dec_digits(v)
    }
}

/// The one-character string for a single decimal digit.
fn digit_to_str(d: u64) -> (r: &'static str)
    requires
        d < 10,
    ensures
        r@ == seq![digit_char(d as int)],
{
    proof {
        reveal_strlit("0");
        reveal_strlit("1");
        reveal_strlit("2");
        reveal_strlit("3");
        reveal_strlit("4");
        reveal_strlit("5");
        reveal_strlit("6");
        reveal_strlit("7");
        reveal_strlit("8");
        reveal_strlit("9");
        assert("0"@ =~= seq!['0']);
        assert("1"@ =~= seq!['1']);
        assert("2"@ =~= seq!['2']);
        assert("3"@ =~= seq!['3']);
        assert("4"@ =~= seq!['4']);
        assert("5"@ =~= seq!['5']);
        assert("6"@ =~= seq!['6']);
        assert("7"@ =~= seq!['7']);
        assert("8"@ =~= seq!['8']);
        assert("9"@ =~= seq!['9']);
    }
    match d {
        0 => "0",
        1 => "1",
        2 => "2",
        3 => "3",
        4 => "4",
        5 => "5",
        6 => "6",
        7 => "7",
        8 => "8",
        _ => "9",
    }
}

impl InstructionNumber {
    /// Renders the count in decimal: a minus sign when negative, then the
    /// digits of its magnitude, most significant first.
    pub fn to_decimal_string(&self) -> (r: String)
        ensures
            r@ == dec_string(self@),
    {
        let neg = self.raw < 0;
        let mut n: u64 = magnitude_u64(self.raw);
        let ghost mag: int = abs(self@) as int;
        let mut s = String::new();
        proof {
            assert(dec_digits(mag) =~= dec_digits(n as int) + s@);
        }
        while n >= 10
            invariant
                dec_digits(mag) == dec_digits(n as int) + s@,
            decreases n,
        {
            proof {
                vstd::arithmetic::div_mod::lemma_fundamental_div_mod(n as int, 10);
                lemma_mod_division_less_than_divisor(n as int, 10);
            }
            let d: u64 = n % 10;
            let mut t = String::from_str(digit_to_str(d));
            t.append(s.as_str());
            proof {
                assert(dec_digits(n as int) =~= dec_digits(n as int / 10) + seq![
                    digit_char(n as int % 10),
                ]);
                assert(dec_digits(n as int) + s@ =~= dec_digits(n as int / 10) + t@);
            }
            n = n / 10;
            s = t;
        }
        let mut t = String::from_str(digit_to_str(n));
        t.append(s.as_str());
        proof {
            assert(dec_digits(n as int) + s@ =~= t@);
            assert(t@ == dec_digits(mag));
        }
        if neg {
            let mut m = String::from_str("-");
            m.append(t.as_str());
            proof {
                reveal_strlit("-");
                assert("-"@ =~= seq!['-']);
                assert(m@ =~= dec_string(self@));
            }
            m
        } else {
            t
        }
    }
}

/// The magnitude of a raw count, as an unsigned 64-bit value; the
/// magnitude of the minimum count is 2^63.
fn magnitude_u64(x: i64) -> (r: u64)
    ensures
        r as int == abs(x as int),
{
    if x == i64::MIN {
        0x8000_0000_0000_0000u64
    } else if x < 0 {
        (-x) as u64
    } else {
        x as u64
    }
}

/// The truncated remainder, expressed through the Euclidean remainder of
/// the operands' magnitudes: it carries the sign of the dividend.
proof fn lemma_trunc_rem_by_magnitude(x: int, y: int)
    requires
        y != 0,
    ensures
        x >= 0 ==> trunc_rem_i64(x, y) == (abs(x) % abs(y)) as int,
        x < 0 ==> trunc_rem_i64(x, y) == -((abs(x) % abs(y)) as int),
{
    let a = abs(x) as int;
    let b = abs(y) as int;
    let q = a / b;
    vstd::arithmetic::div_mod::lemma_fundamental_div_mod(a, b);
    vstd::arithmetic::mul::lemma_mul_unary_negation(b, q);
    vstd::arithmetic::mul::lemma_mul_cancels_negatives(b, q);
}

} // verus!
