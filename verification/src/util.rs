//! Versions, flag formatting and rounding to multiples.

use vstd::prelude::*;

verus! {

/// Calls `String::push`, which appends one character to the string.
#[verifier::external_body]
pub(crate) fn push_char(string: &mut String, c: char)
    ensures
        final(string)@ == old(string)@.push(c),
{
    string.push(c)
}

/// A string could not be read as a version.
#[derive(Debug)]
pub struct InvalidVersionStringError {
    pub value: String,
}

/// A version number: major, minor and patch.
#[derive(Debug, Clone, Copy, PartialEq, Eq, Structural)]
pub struct Version {
    pub major: u32,
    pub minor: u32,
    pub patch: u32,
}

impl Version {
    pub fn new(major: u32, minor: u32, patch: u32) -> (version: Version)
        ensures
            version == (Version { major, minor, patch }),
    {
        Version { major, minor, patch }
    }
}

/// The pieces of a text between its dots: one more than there are dots.
pub open spec fn split_dots(text: Seq<char>) -> Seq<Seq<char>>
    decreases text.len(),
{
    if text.len() == 0 {
        seq![Seq::empty()]
    } else {
        let parts = split_dots(text.drop_last());
        if text.last() == '.' {
            parts.push(Seq::empty())
        } else {
            parts.update(parts.len() - 1, parts.last().push(text.last()))
        }
    }
}

/// There is at least one piece between dots.
pub proof fn lemma_split_dots_nonempty(text: Seq<char>)
    ensures
        split_dots(text).len() >= 1,
    decreases text.len(),
{
    if text.len() > 0 {
        lemma_split_dots_nonempty(text.drop_last());
    }
}

pub open spec fn is_digit(c: char) -> bool {
    '0' <= c && c <= '9'
}

/// The number that decimal digits stand for.
pub open spec fn decimal_value(digits: Seq<char>) -> nat
    decreases digits.len(),
{
    if digits.len() == 0 {
        0
    } else {
        decimal_value(digits.drop_last()) * 10 + (digits.last() as nat - '0' as nat) as nat
    }
}

/// The text without a leading `+`.
pub open spec fn unsigned_digits(text: Seq<char>) -> Seq<char> {
    if text.len() > 0 && text[0] == '+' {
        text.drop_first()
    } else {
        text
    }
}

pub open spec fn all_digits(text: Seq<char>) -> bool {
    forall|i: int| 0 <= i < text.len() ==> is_digit(#[trigger] text[i])
}

/// What reading a text as a `u32` gives: an optional `+`, then at least one
/// decimal digit and nothing else, for a number that fits.
pub open spec fn spec_parse_u32(text: Seq<char>) -> Option<u32> {
    let digits = unsigned_digits(text);
    if digits.len() > 0 && all_digits(digits) && decimal_value(digits) <= u32::MAX {
        Some(decimal_value(digits) as u32)
    } else {
        None
    }
}

/// The number in the `index`-th piece between dots, or 0 when there is no
/// such piece.
pub open spec fn version_part(text: Seq<char>, index: int) -> Option<u32> {
    if index < split_dots(text).len() {
        spec_parse_u32(split_dots(text)[index])
    } else {
        Some(0)
    }
}

/// The version that a text such as "1.2.3" names: its first three pieces
/// between dots, a missing piece counting as 0; `None` when one of them
/// is not a number that fits a `u32`.
pub open spec fn spec_parse_version_string(text: Seq<char>) -> Option<Version> {
    match (version_part(text, 0), version_part(text, 1), version_part(text, 2)) {
        (Some(major), Some(minor), Some(patch)) => Some(Version { major, minor, patch }),
        _ => None,
    }
}

/// A longer run of digits stands for a number no smaller.
proof fn lemma_decimal_value_grows(digits: Seq<char>, i: int, j: int)
    requires
        0 <= i <= j <= digits.len(),
        forall|k: int| 0 <= k < j ==> is_digit(#[trigger] digits[k]),
    ensures
        decimal_value(digits.take(i)) <= decimal_value(digits.take(j)),
    decreases j - i,
{
    if i < j {
        lemma_decimal_value_grows(digits, i, j - 1);
        assert(digits.take(j).drop_last() =~= digits.take(j - 1));
    }
}

/// Reads a text as a `u32` the way `str::parse` does.
pub fn parse_u32_chars(text: &Vec<char>) -> (value: Option<u32>)
    ensures
        value == spec_parse_u32(text@),
{
    let start: usize = if text.len() > 0 && text[0] == '+' { 1 } else { 0 };
    let ghost digits = unsigned_digits(text@);
    if start == text.len() {
        return None;
    }
    assert(digits =~= text@.skip(start as int));
    let mut value: u64 = 0;
    let mut i: usize = start;
    while i < text.len()
        invariant
            start <= i <= text@.len(),
            start == 0 || start == 1,
            digits == text@.skip(start as int),
            digits == unsigned_digits(text@),
            digits.len() > 0,
            forall|k: int| 0 <= k < i - start ==> is_digit(#[trigger] digits[k]),
            value == decimal_value(digits.take(i - start)),
            value <= u32::MAX,
        decreases text@.len() - i,
    {
        let c = text[i];
        if !('0' <= c && c <= '9') {
            assert(!is_digit(digits[i - start]));
            assert(!all_digits(digits));
            return None;
        }
        let digit: u64 = (c as u32 - '0' as u32) as u64;
        assert(digits.take(i - start + 1).drop_last() =~= digits.take(i - start));
        value = value * 10 + digit;
        i = i + 1;
        if value > 0xffff_ffff {
            proof {
                if all_digits(digits) {
                    lemma_decimal_value_grows(digits, i - start, digits.len() as int);
                    assert(digits.take(digits.len() as int) =~= digits);
                }
            }
            return None;
        }
    }
    assert(digits.take(digits.len() as int) =~= digits);
    Some(value as u32)
}

/// Reads a version such as "1.2.3": the first three pieces between dots,
/// a missing piece counting as 0.
pub fn parse_version_string(value: &str) -> (result: Result<Version, InvalidVersionStringError>)
    ensures
        match result {
            Ok(version) => spec_parse_version_string(value@) == Some(version),
            Err(error) => spec_parse_version_string(value@) is None && error.value@ == value@,
        },
{
    let length = value.unicode_len();
    let mut parts: Vec<Vec<char>> = Vec::new();
    parts.push(Vec::new());
    let mut i: usize = 0;
    while i < length
        invariant
            length == value@.len(),
            0 <= i <= length,
            parts@.len() >= 1,
            parts@.len() == split_dots(value@.take(i as int)).len(),
            forall|k: int| 0 <= k < parts@.len() ==> #[trigger] parts@[k]@ == split_dots(value@.take(i as int))[k],
        decreases length - i,
    {
        let c = value.get_char(i);
        let ghost before = value@.take(i as int);
        assert(value@.take(i + 1).drop_last() =~= before);
        if c == '.' {
            parts.push(Vec::new());
        } else {
            let last = parts.len() - 1;
            let mut piece = parts.remove(last);
            piece.push(c);
            parts.push(piece);
        }
        proof {
            let after = split_dots(value@.take(i + 1));
            assert(parts@.len() == after.len());
            assert forall|k: int| 0 <= k < parts@.len() implies #[trigger] parts@[k]@ == after[k] by {}
        }
        i = i + 1;
    }
    assert(value@.take(length as int) =~= value@);
    let ghost pieces = split_dots(value@);
    let major = if parts.len() > 0 { parse_u32_chars(&parts[0]) } else { Some(0) };
    let minor = if parts.len() > 1 { parse_u32_chars(&parts[1]) } else { Some(0) };
    let patch = if parts.len() > 2 { parse_u32_chars(&parts[2]) } else { Some(0) };
    match (major, minor, patch) {
        (Some(major), Some(minor), Some(patch)) => Ok(Version { major, minor, patch }),
        _ => Err(InvalidVersionStringError { value: value.to_owned() }),
    }
}

impl TryFrom<&str> for Version {
    type Error = InvalidVersionStringError;

    fn try_from(value: &str) -> (result: Result<Version, InvalidVersionStringError>)
        ensures
            match result {
                Ok(version) => spec_parse_version_string(value@) == Some(version),
                Err(error) => spec_parse_version_string(value@) is None && error.value@ == value@,
            },
    {
        parse_version_string(value)
    }
}

impl vstd::std_specs::convert::TryFromSpecImpl<&str> for Version {
    open spec fn obeys_try_from_spec() -> bool {
        false
    }

    open spec fn try_from_spec(value: &str) -> Result<Version, InvalidVersionStringError> {
        match spec_parse_version_string(value@) {
            Some(version) => Ok(version),
            None => Err(arbitrary()),
        }
    }
}

impl TryFrom<String> for Version {
    type Error = InvalidVersionStringError;

    fn try_from(value: String) -> (result: Result<Version, InvalidVersionStringError>)
        ensures
            match result {
                Ok(version) => spec_parse_version_string(value@) == Some(version),
                Err(error) => spec_parse_version_string(value@) is None && error.value@ == value@,
            },
    {
        parse_version_string(value.as_str())
    }
}

impl vstd::std_specs::convert::TryFromSpecImpl<String> for Version {
    open spec fn obeys_try_from_spec() -> bool {
        false
    }

    open spec fn try_from_spec(value: String) -> Result<Version, InvalidVersionStringError> {
        match spec_parse_version_string(value@) {
            Some(version) => Ok(version),
            None => Err(arbitrary()),
        }
    }
}

/// The version that a Vulkan version number packs: the major version in
/// the top 10 bits, the minor in the next 10 and the patch in the low 12.
pub open spec fn spec_unpack_version(value: u32) -> Version {
    Version { major: value >> 22u32, minor: (value >> 12u32) & 0x3ffu32, patch: value & 0xfffu32 }
}

/// A version packed into a Vulkan version number; bits that do not fit
/// are lost.
pub open spec fn spec_pack_version(version: Version) -> u32 {
    (version.major << 22u32) | (version.minor << 12u32) | version.patch
}

impl From<u32> for Version {
    fn from(value: u32) -> (version: Version) {
        Version { major: value >> 22, minor: (value >> 12) & 0x3ff, patch: value & 0xfff }
    }
}

impl vstd::std_specs::convert::FromSpecImpl<u32> for Version {
    open spec fn obeys_from_spec() -> bool {
        true
    }

    open spec fn from_spec(value: u32) -> Version {
        spec_unpack_version(value)
    }
}

impl From<&Version> for u32 {
    fn from(value: &Version) -> (packed: u32) {
        (value.major << 22) | (value.minor << 12) | value.patch
    }
}

impl vstd::std_specs::convert::FromSpecImpl<&Version> for u32 {
    open spec fn obeys_from_spec() -> bool {
        true
    }

    open spec fn from_spec(value: &Version) -> u32 {
        spec_pack_version(*value)
    }
}

/// Packing the version read from a number gives the number back.
pub proof fn lemma_pack_unpack(value: u32)
    ensures
        spec_pack_version(spec_unpack_version(value)) == value,
{
    assert(((value >> 22u32) << 22u32) | (((value >> 12u32) & 0x3ffu32) << 12u32) | (value & 0xfffu32) == value)
        by (bit_vector);
}

/// A version whose parts fit their fields is read back from its packed
/// number unchanged.
pub proof fn lemma_unpack_pack(version: Version)
    requires
        version.major < 1024,
        version.minor < 1024,
        version.patch < 4096,
    ensures
        spec_unpack_version(spec_pack_version(version)) == version,
{
    let (a, b, c) = (version.major, version.minor, version.patch);
    assert(((a << 22u32) | (b << 12u32) | c) >> 22u32 == a) by (bit_vector)
        requires a < 1024, b < 1024, c < 4096;
    assert((((a << 22u32) | (b << 12u32) | c) >> 12u32) & 0x3ffu32 == b) by (bit_vector)
        requires a < 1024, b < 1024, c < 4096;
    assert(((a << 22u32) | (b << 12u32) | c) & 0xfffu32 == c) by (bit_vector)
        requires a < 1024, b < 1024, c < 4096;
}

/// "true" or "false".
pub fn format_bool(value: bool) -> (text: String)
    ensures
        text@ == (if value { "true"@ } else { "false"@ }),
{
    if value {
        String::from_str("true")
    } else {
        String::from_str("false")
    }
}

/// A type that hands out a builder for its values.
pub trait HasBuilder {
    type Builder;

    fn builder() -> Self::Builder;
}

/// `m` is a power of two.
pub open spec fn is_power_of_two(m: u64) -> bool {
    m != 0 && m & ((m - 1) as u64) == 0
}

/// Rounding up to a multiple that is a power of two.
pub trait FastNearestMultiple: Copy + Sized {
    /// The numbers for which [`FastNearestMultiple::nearest_multiple`] is
    /// defined.
    spec fn nearest_multiple_requires(self, multiple: Self) -> bool;

    /// `result` is the smallest multiple of `multiple` that is not below
    /// `self`.
    spec fn is_nearest_multiple(self, multiple: Self, result: Self) -> bool;

    /// The smallest multiple of `multiple` that is not below `self`.
    fn nearest_multiple(self, multiple: Self) -> (result: Self)
        requires
            self.nearest_multiple_requires(multiple),
        ensures
            self.is_nearest_multiple(multiple, result),
    ;
}

impl FastNearestMultiple for u64 {
    open spec fn nearest_multiple_requires(self, multiple: u64) -> bool {
        is_power_of_two(multiple) && self + multiple <= u64::MAX
    }

    open spec fn is_nearest_multiple(self, multiple: u64, result: u64) -> bool {
        &&& result % multiple == 0
        &&& self <= result
        &&& result < self + multiple
    }

    fn nearest_multiple(self, multiple: u64) -> (result: u64) {
        assert(multiple != 0 ==> !multiple < u64::MAX) by (bit_vector);
        let result = (self + multiple - 1) & (!multiple + 1);
        proof {
            lemma_round_up(self, multiple);
        }
        result
    }
}

/// Adding `m - 1` and clearing the low bits rounds up to a multiple of the
/// power of two `m`.
proof fn lemma_round_up(x: u64, m: u64)
    requires
        is_power_of_two(m),
        x + m <= u64::MAX,
    ensures
        ({
            let r = ((x + m - 1) as u64) & ((!m + 1) as u64);
            r % m == 0 && x <= r && r < x + m
        }),
{
    let r = ((x + m - 1) as u64) & ((!m + 1) as u64);
    assert(r & ((m - 1) as u64) == 0) by (bit_vector)
        requires
            m != 0,
            m & ((m - 1) as u64) == 0,
            x + m <= u64::MAX,
            r == ((x + m - 1) as u64) & ((!m + 1) as u64),
    ;
    assert(x <= r && r < x + m) by (bit_vector)
        requires
            m != 0,
            m & ((m - 1) as u64) == 0,
            x + m <= u64::MAX,
            r == ((x + m - 1) as u64) & ((!m + 1) as u64),
    ;
    let n = lemma_power_of_two_log(m);
    vstd::bits::lemma_u64_low_bits_mask_is_mod(r, n);
    assert(vstd::bits::low_bits_mask(n) == m - 1);
}

/// There is exactly one smallest multiple not below a number: two results
/// that both are one are equal.
pub proof fn lemma_nearest_multiple(x: u64, m: u64, a: u64, b: u64)
    requires
        x.nearest_multiple_requires(m),
        x.is_nearest_multiple(m, a),
        x.is_nearest_multiple(m, b),
    ensures
        a == b,
{
    let qa = a / m;
    let qb = b / m;
    assert(a == m * qa) by (nonlinear_arith)
        requires
            m > 0,
            a % m == 0,
            qa == a / m,
    ;
    assert(b == m * qb) by (nonlinear_arith)
        requires
            m > 0,
            b % m == 0,
            qb == b / m,
    ;
    assert(qa == qb) by (nonlinear_arith)
        requires
            m > 0,
            a == m * qa,
            b == m * qb,
            a - b < m,
            b - a < m,
    ;
}

/// A power of two is `2^n` for some `n < 64`.
proof fn lemma_power_of_two_log(m: u64) -> (n: nat)
    requires
        is_power_of_two(m),
    ensures
        n < 64,
        vstd::arithmetic::power2::pow2(n) == m,
    decreases m,
{
    if m == 1 {
        vstd::arithmetic::power2::lemma2_to64();
        0
    } else {
        let h = m >> 1u64;
        assert(h != 0 && h & ((h - 1) as u64) == 0 && m == h * 2 && h < m) by (bit_vector)
            requires
                m != 0,
                m != 1,
                m & ((m - 1) as u64) == 0,
                h == m >> 1u64,
        ;
        let k = lemma_power_of_two_log(h);
        vstd::arithmetic::power2::lemma_pow2_unfold(k + 1);
        if k + 1 == 64 {
            vstd::arithmetic::power2::lemma2_to64();
        }
        k + 1
    }
}

} // verus!
