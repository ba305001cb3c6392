//! Decimal integers in ASCII.

use vstd::prelude::*;
use crate::ascii::{DIGIT_0, DIGIT_9, MINUS};

verus! {

/// Whether `b` is one of the ASCII digits `0` to `9`.
pub open spec fn is_digit(b: u8) -> bool {
    DIGIT_0 <= b <= DIGIT_9
}

/// Whether every byte of `s` is an ASCII digit.
pub open spec fn all_digits(s: Seq<u8>) -> bool {
    forall|i: int| 0 <= i < s.len() ==> is_digit(#[trigger] s[i])
}

/// The number that the digits of `s` write in base ten, most significant first.
pub open spec fn digits_value(s: Seq<u8>) -> nat
    decreases s.len(),
{
    if s.len() == 0 {
        0
    } else {
        digits_value(s.drop_last()) * 10 + (s.last() - DIGIT_0) as nat
    }
}

/// The integer that `s` writes: digits, after a minus sign where `signed` allows one.
pub open spec fn decimal_value(s: Seq<u8>, signed: bool) -> Option<int> {
    if signed && s.len() > 0 && s[0] == MINUS {
        if s.len() > 1 && all_digits(s.skip(1)) {
            Some(-(digits_value(s.skip(1)) as int))
        } else {
            None
        }
    } else if s.len() > 0 && all_digits(s) {
        Some(digits_value(s) as int)
    } else {
        None
    }
}

/// A machine integer that decimal text can be read into.
pub trait Integer: Sized + Copy {
    /// Whether the type holds negative numbers.
    spec fn signed() -> bool;

    /// The least value of the type.
    spec fn least() -> int;

    /// The greatest value of the type.
    spec fn greatest() -> int;

    /// The number that a value of the type stands for.
    spec fn value(self) -> int;

    /// Every such type lies within sixty-four bits either side of zero.
    proof fn lemma_range()
        ensures
            -(u64::MAX as int) <= Self::least(),
            Self::greatest() <= u64::MAX as int,
    ;

    /// Whether the type holds negative numbers.
    fn is_signed() -> (r: bool)
        ensures
            r == Self::signed(),
    ;

    /// The value `magnitude`, negated where `negative`, if the type holds it.
    fn from_parts(negative: bool, magnitude: u64) -> (r: Option<Self>)
        ensures
            r.is_some() <==> Self::least() <= signed_value(negative, magnitude) <= Self::greatest(),
            r matches Some(v) ==> v.value() == signed_value(negative, magnitude),
    ;
}

/// The integer with the given sign and magnitude.
pub open spec fn signed_value(negative: bool, magnitude: u64) -> int {
    if negative {
        -(magnitude as int)
    } else {
        magnitude as int
    }
}

impl Integer for u8 {
    open spec fn signed() -> bool {
        false
    }

    open spec fn least() -> int {
        0
    }

    open spec fn greatest() -> int {
        u8::MAX as int
    }

    open spec fn value(self) -> int {
        self as int
    }

    proof fn lemma_range() {
    }

    fn is_signed() -> (r: bool) {
        false
    }

    fn from_parts(negative: bool, magnitude: u64) -> (r: Option<Self>) {
        if magnitude == 0 {
            Some(0)
        } else if negative || magnitude > 255 {
            None
        } else {
            Some(magnitude as u8)
        }
    }
}

impl Integer for u16 {
    open spec fn signed() -> bool {
        false
    }

    open spec fn least() -> int {
        0
    }

    open spec fn greatest() -> int {
        u16::MAX as int
    }

    open spec fn value(self) -> int {
        self as int
    }

    proof fn lemma_range() {
    }

    fn is_signed() -> (r: bool) {
        false
    }

    fn from_parts(negative: bool, magnitude: u64) -> (r: Option<Self>) {
        if magnitude == 0 {
            Some(0)
        } else if negative || magnitude > 65535 {
            None
        } else {
            Some(magnitude as u16)
        }
    }
}

impl Integer for u32 {
    open spec fn signed() -> bool {
        false
    }

    open spec fn least() -> int {
        0
    }

    open spec fn greatest() -> int {
        u32::MAX as int
    }

    open spec fn value(self) -> int {
        self as int
    }

    proof fn lemma_range() {
    }

    fn is_signed() -> (r: bool) {
        false
    }

    fn from_parts(negative: bool, magnitude: u64) -> (r: Option<Self>) {
        if magnitude == 0 {
            Some(0)
        } else if negative || magnitude > 4294967295 {
            None
        } else {
            Some(magnitude as u32)
        }
    }
}

impl Integer for u64 {
    open spec fn signed() -> bool {
        false
    }

    open spec fn least() -> int {
        0
    }

    open spec fn greatest() -> int {
        u64::MAX as int
    }

    open spec fn value(self) -> int {
        self as int
    }

    proof fn lemma_range() {
    }

    fn is_signed() -> (r: bool) {
        false
    }

    fn from_parts(negative: bool, magnitude: u64) -> (r: Option<Self>) {
        if negative && magnitude != 0 {
            None
        } else {
            Some(magnitude)
        }
    }
}

impl Integer for i8 {
    open spec fn signed() -> bool {
        true
    }

    open spec fn least() -> int {
        i8::MIN as int
    }

    open spec fn greatest() -> int {
        i8::MAX as int
    }

    open spec fn value(self) -> int {
        self as int
    }

    proof fn lemma_range() {
    }

    fn is_signed() -> (r: bool) {
        true
    }

    fn from_parts(negative: bool, magnitude: u64) -> (r: Option<Self>) {
        if !negative {
            if magnitude > 127 {
                None
            } else {
                Some(magnitude as i8)
            }
        } else if magnitude > 127 + 1 {
            None
        } else {
            let below: i128 = 0 - (magnitude as i128);
            Some(below as i8)
        }
    }
}

impl Integer for i16 {
    open spec fn signed() -> bool {
        true
    }

    open spec fn least() -> int {
        i16::MIN as int
    }

    open spec fn greatest() -> int {
        i16::MAX as int
    }

    open spec fn value(self) -> int {
        self as int
    }

    proof fn lemma_range() {
    }

    fn is_signed() -> (r: bool) {
        true
    }

    fn from_parts(negative: bool, magnitude: u64) -> (r: Option<Self>) {
        if !negative {
            if magnitude > 32767 {
                None
            } else {
                Some(magnitude as i16)
            }
        } else if magnitude > 32767 + 1 {
            None
        } else {
            let below: i128 = 0 - (magnitude as i128);
            Some(below as i16)
        }
    }
}

impl Integer for i32 {
    open spec fn signed() -> bool {
        true
    }

    open spec fn least() -> int {
        i32::MIN as int
    }

    open spec fn greatest() -> int {
        i32::MAX as int
    }

    open spec fn value(self) -> int {
        self as int
    }

    proof fn lemma_range() {
    }

    fn is_signed() -> (r: bool) {
        true
    }

    fn from_parts(negative: bool, magnitude: u64) -> (r: Option<Self>) {
        if !negative {
            if magnitude > 2147483647 {
                None
            } else {
                Some(magnitude as i32)
            }
        } else if magnitude > 2147483647 + 1 {
            None
        } else {
            let below: i128 = 0 - (magnitude as i128);
            Some(below as i32)
        }
    }
}

impl Integer for i64 {
    open spec fn signed() -> bool {
        true
    }

    open spec fn least() -> int {
        i64::MIN as int
    }

    open spec fn greatest() -> int {
        i64::MAX as int
    }

    open spec fn value(self) -> int {
        self as int
    }

    proof fn lemma_range() {
    }

    fn is_signed() -> (r: bool) {
        true
    }

    fn from_parts(negative: bool, magnitude: u64) -> (r: Option<Self>) {
        if !negative {
            if magnitude > 9223372036854775807 {
                None
            } else {
                Some(magnitude as i64)
            }
        } else if magnitude > 9223372036854775807 + 1 {
            None
        } else {
            let below: i128 = 0 - (magnitude as i128);
            Some(below as i64)
        }
    }
}

/// The integer that `s` writes, where the type `T` holds it.
pub open spec fn parsed<T: Integer>(s: Seq<u8>) -> Option<int> {
    match decimal_value(s, T::signed()) {
        Some(v) => if T::least() <= v <= T::greatest() {
            Some(v)
        } else {
            None
        },
        None => None,
    }
}

/// The number that `s` writes with digits alone, where the type `T` holds it.
pub open spec fn parsed_unsigned<T: Integer>(s: Seq<u8>) -> Option<int> {
    if s.len() > 0 && all_digits(s) && T::least() <= digits_value(s) <= T::greatest() {
        Some(digits_value(s) as int)
    } else {
        None
    }
}

/// A prefix of a digit string writes a number that is not greater than the whole.
pub proof fn lemma_prefix_value_le(s: Seq<u8>, k: int)
    requires
        all_digits(s),
        0 <= k <= s.len(),
    ensures
        digits_value(s.take(k)) <= digits_value(s),
    decreases s.len(),
{
    if k == s.len() {
        assert(s.take(k) =~= s);
    } else {
        let front = s.drop_last();
        assert(is_digit(s[s.len() - 1]));
        assert(all_digits(front)) by {
            assert forall|i: int| 0 <= i < front.len() implies is_digit(#[trigger] front[i]) by {
                assert(front[i] == s[i]);
            }
        }
        lemma_prefix_value_le(front, k);
        assert(front.take(k) =~= s.take(k));
    }
}

/// A string of `n` digits writes a number below ten to the `n`.
pub proof fn lemma_value_bound(s: Seq<u8>)
    requires
        all_digits(s),
    ensures
        digits_value(s) < vstd::arithmetic::power::pow(10, s.len()),
    decreases s.len(),
{
    reveal(vstd::arithmetic::power::pow);
    if s.len() > 0 {
        let front = s.drop_last();
        assert(is_digit(s[s.len() - 1]));
        assert(all_digits(front)) by {
            assert forall|i: int| 0 <= i < front.len() implies is_digit(#[trigger] front[i]) by {
                assert(front[i] == s[i]);
            }
        }
        lemma_value_bound(front);
    }
}

/// Whether `b` is an ASCII digit.
pub fn digit(b: u8) -> (r: bool)
    ensures
        r == is_digit(b),
{
    DIGIT_0 <= b && b <= DIGIT_9
}

/// Reads the digits of `bytes` from `start` to the end as one number.
fn read_magnitude(bytes: &[u8], start: usize) -> (r: Option<u64>)
    requires
        start <= bytes@.len(),
    ensures
        r matches Some(m) ==> start < bytes@.len() && all_digits(bytes@.skip(start as int))
            && digits_value(bytes@.skip(start as int)) == m,
        r is None ==> start == bytes@.len() || !all_digits(bytes@.skip(start as int))
            || digits_value(bytes@.skip(start as int)) > u64::MAX,
{
    if start == bytes.len() {
        return None;
    }
    let ghost tail = bytes@.skip(start as int);
    let mut acc: u64 = 0;
    let mut i: usize = start;
    while i < bytes.len()
        invariant
            start <= i <= bytes@.len(),
            tail == bytes@.skip(start as int),
            all_digits(tail.take(i - start)),
            digits_value(tail.take(i - start)) == acc,
        decreases bytes@.len() - i,
    {
        let b = bytes[i];
        let ghost next = tail.take(i + 1 - start);
        assert(next.drop_last() =~= tail.take(i - start));
        assert(next.last() == b);
        if !digit(b) {
            assert(!is_digit(tail[i - start]));
            return None;
        }
        assert(all_digits(next)) by {
            assert forall|j: int| 0 <= j < next.len() implies is_digit(#[trigger] next[j]) by {
                if j < i - start {
                    assert(next[j] == tail.take(i - start)[j]);
                }
            }
        }
        let step = match acc.checked_mul(10) {
            Some(tens) => tens.checked_add((b - DIGIT_0) as u64),
            None => None,
        };
        match step {
            Some(value) => {
                acc = value;
            },
            None => {
                proof {
                    if all_digits(tail) {
                        lemma_prefix_value_le(tail, i + 1 - start);
                    }
                }
                return None;
            },
        }
        i = i + 1;
    }
    assert(tail.take(i - start) =~= tail);
    Some(acc)
}

/// Reads `bytes` as a decimal integer of type `T`: digits, after a minus sign
/// where `T` is signed. Gives `None` for any other text and for a number that
/// `T` does not hold.
pub fn parse_int<T: Integer>(bytes: &[u8]) -> (r: Option<T>)
    ensures
        r.is_some() == parsed::<T>(bytes@).is_some(),
        r matches Some(v) ==> parsed::<T>(bytes@) == Some(v.value()),
{
    proof {
        T::lemma_range();
    }
    if T::is_signed() && bytes.len() > 0 && bytes[0] == MINUS {
        match read_magnitude(bytes, 1) {
            Some(m) => T::from_parts(true, m),
            None => None,
        }
    } else {
        assert(bytes@.skip(0) =~= bytes@);
        match read_magnitude(bytes, 0) {
            Some(m) => T::from_parts(false, m),
            None => None,
        }
    }
}

/// Reads `bytes` as a number of type `T` written with digits alone. Gives
/// `None` for any other text and for a number that `T` does not hold.
pub fn parse_uint<T: Integer>(bytes: &[u8]) -> (r: Option<T>)
    ensures
        r.is_some() == parsed_unsigned::<T>(bytes@).is_some(),
        r matches Some(v) ==> parsed_unsigned::<T>(bytes@) == Some(v.value()),
{
    proof {
        T::lemma_range();
    }
    assert(bytes@.skip(0) =~= bytes@);
    match read_magnitude(bytes, 0) {
        Some(m) => T::from_parts(false, m),
        None => None,
    }
}

/// Every part of a digit string is a digit string.
pub proof fn lemma_all_digits_subrange(s: Seq<u8>, from: int, to: int)
    requires
        all_digits(s),
        0 <= from <= to <= s.len(),
    ensures
        all_digits(s.subrange(from, to)),
{
    let part = s.subrange(from, to);
    assert forall|i: int| 0 <= i < part.len() implies is_digit(#[trigger] part[i]) by {
        assert(part[i] == s[from + i]);
    }
}

/// The number that two digits write.
pub proof fn lemma_digits_2(s: Seq<u8>)
    requires
        s.len() == 2,
        all_digits(s),
    ensures
        digits_value(s) == (s[0] - DIGIT_0) * 10 + (s[1] - DIGIT_0),
        digits_value(s) <= 99,
{
    reveal_with_fuel(digits_value, 3);
    assert(is_digit(s[0]) && is_digit(s[1]));
    assert(s.drop_last()[0] == s[0]);
    assert(s.drop_last().drop_last().len() == 0);
}

/// The number that three digits write.
pub proof fn lemma_digits_3(s: Seq<u8>)
    requires
        s.len() == 3,
        all_digits(s),
    ensures
        digits_value(s) == (s[0] - DIGIT_0) * 100 + (s[1] - DIGIT_0) * 10 + (s[2] - DIGIT_0),
        digits_value(s) <= 999,
{
    assert(is_digit(s[0]) && is_digit(s[1]) && is_digit(s[2]));
    let front = s.drop_last();
    assert(front[0] == s[0] && front[1] == s[1]);
    lemma_all_digits_subrange(s, 0, 2);
    assert(front =~= s.subrange(0, 2));
    lemma_digits_2(front);
}

/// The two digits that write `n`, for `n` below 100.
pub open spec fn pair_text(n: u8) -> Seq<u8> {
    seq![(DIGIT_0 + n / 10) as u8, (DIGIT_0 + n % 10) as u8]
}

/// The three digits that write `n`, for `n` below 1000.
pub open spec fn triple_text(n: u16) -> Seq<u8> {
    seq![(DIGIT_0 + n / 100) as u8, (DIGIT_0 + (n / 10) % 10) as u8, (DIGIT_0 + n % 10) as u8]
}

/// The two digits that write a number below 100 are digits and write that number.
pub proof fn lemma_pair_round_trip(n: u8)
    requires
        n < 100,
    ensures
        all_digits(pair_text(n)),
        digits_value(pair_text(n)) == n,
{
    let s = pair_text(n);
    assert(s[0] == DIGIT_0 + n / 10 && s[1] == DIGIT_0 + n % 10);
    assert forall|i: int| 0 <= i < s.len() implies is_digit(#[trigger] s[i]) by {}
    lemma_digits_2(s);
}

/// The three digits that write a number below 1000 are digits and write that number.
pub proof fn lemma_triple_round_trip(n: u16)
    requires
        n < 1000,
    ensures
        all_digits(triple_text(n)),
        digits_value(triple_text(n)) == n,
{
    let s = triple_text(n);
    assert(s[0] == DIGIT_0 + n / 100 && s[1] == DIGIT_0 + (n / 10) % 10 && s[2] == DIGIT_0 + n % 10);
    assert forall|i: int| 0 <= i < s.len() implies is_digit(#[trigger] s[i]) by {}
    lemma_digits_3(s);
}

/// The digits that write `n` in base ten, without leading zeros.
pub open spec fn decimal_text(n: nat) -> Seq<u8>
    decreases n,
{
    if n < 10 {
        seq![(DIGIT_0 + n) as u8]
    } else {
        decimal_text(n / 10).push((DIGIT_0 + n % 10) as u8)
    }
}

/// Appends to `out` the digits that write `n`.
pub fn push_decimal(out: &mut Vec<u8>, n: u64)
    ensures
        final(out)@ == old(out)@ + decimal_text(n as nat),
    decreases n,
{
    if n >= 10 {
        push_decimal(out, n / 10);
    }
    out.push(DIGIT_0 + (n % 10) as u8);
    assert(out@ =~= old(out)@ + decimal_text(n as nat));
}

/// Writing a number in digits and reading the digits gives the number back.
pub proof fn lemma_decimal_round_trip(n: nat)
    ensures
        decimal_text(n).len() > 0,
        all_digits(decimal_text(n)),
        digits_value(decimal_text(n)) == n,
    decreases n,
{
    let s = decimal_text(n);
    if n < 10 {
        reveal_with_fuel(digits_value, 2);
        assert(s.drop_last().len() == 0);
        assert(s.last() == DIGIT_0 + n);
        assert(is_digit(s[0]));
    } else {
        lemma_decimal_round_trip(n / 10);
        let front = decimal_text(n / 10);
        assert(s.drop_last() =~= front);
        assert forall|i: int| 0 <= i < s.len() implies is_digit(#[trigger] s[i]) by {
            if i < front.len() {
                assert(s[i] == front[i]);
            }
        }
    }
}

/// The digits of a number are ASCII.
pub proof fn lemma_decimal_text_ascii(n: nat)
    ensures
        forall|i: int| 0 <= i < decimal_text(n).len() ==> #[trigger] decimal_text(n)[i] < 128,
{
    lemma_decimal_round_trip(n);
    assert forall|i: int| 0 <= i < decimal_text(n).len() implies #[trigger] decimal_text(n)[i]
        < 128 by {
        assert(is_digit(decimal_text(n)[i]));
    }
}

/// Every number that a type holds is read back from its digits, behind a
/// minus sign where it is below zero.
pub proof fn lemma_parse_int_round_trip<T: Integer>(v: int)
    requires
        T::least() <= v <= T::greatest(),
        v < 0 ==> T::signed(),
    ensures
        v >= 0 ==> parsed::<T>(decimal_text(v as nat)) == Some(v),
        v < 0 ==> parsed::<T>(seq![MINUS] + decimal_text((-v) as nat)) == Some(v),
{
    if v >= 0 {
        lemma_decimal_round_trip(v as nat);
        assert(decimal_text(v as nat)[0] != MINUS) by {
            assert(is_digit(decimal_text(v as nat)[0]));
        }
    } else {
        lemma_decimal_round_trip((-v) as nat);
        let s = seq![MINUS] + decimal_text((-v) as nat);
        assert(s.skip(1) =~= decimal_text((-v) as nat));
        assert(s[0] == MINUS);
    }
}

} // verus!
