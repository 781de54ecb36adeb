//! Addresses typed in the probe view: empty, or a hexadecimal, binary or
//! octal number with its prefix, or a decimal number.

use vstd::prelude::*;

verus! {

/// `c` is a Unicode decimal digit (general category Nd, the class `\d`
/// stands for in the address patterns).
pub open spec fn is_decimal_digit(c: char) -> bool {
    let u = c as u32;
    ||| 0x30 <= u <= 0x39
    ||| 0x660 <= u <= 0x669
    ||| 0x6F0 <= u <= 0x6F9
    ||| 0x7C0 <= u <= 0x7C9
    ||| 0x966 <= u <= 0x96F
    ||| 0x9E6 <= u <= 0x9EF
    ||| 0xA66 <= u <= 0xA6F
    ||| 0xAE6 <= u <= 0xAEF
    ||| 0xB66 <= u <= 0xB6F
    ||| 0xBE6 <= u <= 0xBEF
    ||| 0xC66 <= u <= 0xC6F
    ||| 0xCE6 <= u <= 0xCEF
    ||| 0xD66 <= u <= 0xD6F
    ||| 0xDE6 <= u <= 0xDEF
    ||| 0xE50 <= u <= 0xE59
    ||| 0xED0 <= u <= 0xED9
    ||| 0xF20 <= u <= 0xF29
    ||| 0x1040 <= u <= 0x1049
    ||| 0x1090 <= u <= 0x1099
    ||| 0x17E0 <= u <= 0x17E9
    ||| 0x1810 <= u <= 0x1819
    ||| 0x1946 <= u <= 0x194F
    ||| 0x19D0 <= u <= 0x19D9
    ||| 0x1A80 <= u <= 0x1A89
    ||| 0x1A90 <= u <= 0x1A99
    ||| 0x1B50 <= u <= 0x1B59
    ||| 0x1BB0 <= u <= 0x1BB9
    ||| 0x1C40 <= u <= 0x1C49
    ||| 0x1C50 <= u <= 0x1C59
    ||| 0xA620 <= u <= 0xA629
    ||| 0xA8D0 <= u <= 0xA8D9
    ||| 0xA900 <= u <= 0xA909
    ||| 0xA9D0 <= u <= 0xA9D9
    ||| 0xA9F0 <= u <= 0xA9F9
    ||| 0xAA50 <= u <= 0xAA59
    ||| 0xABF0 <= u <= 0xABF9
    ||| 0xFF10 <= u <= 0xFF19
    ||| 0x104A0 <= u <= 0x104A9
    ||| 0x10D30 <= u <= 0x10D39
    ||| 0x10D40 <= u <= 0x10D49
    ||| 0x11066 <= u <= 0x1106F
    ||| 0x110F0 <= u <= 0x110F9
    ||| 0x11136 <= u <= 0x1113F
    ||| 0x111D0 <= u <= 0x111D9
    ||| 0x112F0 <= u <= 0x112F9
    ||| 0x11450 <= u <= 0x11459
    ||| 0x114D0 <= u <= 0x114D9
    ||| 0x11650 <= u <= 0x11659
    ||| 0x116C0 <= u <= 0x116C9
    ||| 0x116D0 <= u <= 0x116E3
    ||| 0x11730 <= u <= 0x11739
    ||| 0x118E0 <= u <= 0x118E9
    ||| 0x11950 <= u <= 0x11959
    ||| 0x11BF0 <= u <= 0x11BF9
    ||| 0x11C50 <= u <= 0x11C59
    ||| 0x11D50 <= u <= 0x11D59
    ||| 0x11DA0 <= u <= 0x11DA9
    ||| 0x11F50 <= u <= 0x11F59
    ||| 0x16130 <= u <= 0x16139
    ||| 0x16A60 <= u <= 0x16A69
    ||| 0x16AC0 <= u <= 0x16AC9
    ||| 0x16B50 <= u <= 0x16B59
    ||| 0x16D70 <= u <= 0x16D79
    ||| 0x1CCF0 <= u <= 0x1CCF9
    ||| 0x1D7CE <= u <= 0x1D7FF
    ||| 0x1E140 <= u <= 0x1E149
    ||| 0x1E2F0 <= u <= 0x1E2F9
    ||| 0x1E4F0 <= u <= 0x1E4F9
    ||| 0x1E5F1 <= u <= 0x1E5FA
    ||| 0x1E950 <= u <= 0x1E959
    ||| 0x1FBF0 <= u <= 0x1FBF9
}

/// `c` is an ASCII hexadecimal digit.
pub open spec fn is_hex_digit(c: char) -> bool {
    ||| '0' <= c <= '9'
    ||| 'a' <= c <= 'f'
    ||| 'A' <= c <= 'F'
}

/// `c` is a binary digit.
pub open spec fn is_bin_digit(c: char) -> bool {
    c == '0' || c == '1'
}

/// `c` is an octal digit.
pub open spec fn is_oct_digit(c: char) -> bool {
    '0' <= c <= '7'
}

/// The digit classes of the prefixed forms.
#[derive(Clone, Copy, Debug, PartialEq, Eq, Structural)]
pub enum Radix {
    /// `0x` or `0X`, then hexadecimal digits.
    Hex,
    /// `0b` or `0B`, then binary digits.
    Bin,
    /// `0o` or `0O`, then octal digits.
    Oct,
}

impl Radix {
    /// Whether `c` is a digit of this radix.
    pub open spec fn digit(self, c: char) -> bool {
        match self {
            Radix::Hex => is_hex_digit(c),
            Radix::Bin => is_bin_digit(c),
            Radix::Oct => is_oct_digit(c),
        }
    }

    /// The letter that follows the leading `0`, in lower case.
    pub open spec fn letter(self) -> char {
        match self {
            Radix::Hex => 'x',
            Radix::Bin => 'b',
            Radix::Oct => 'o',
        }
    }

    /// The letter that follows the leading `0`, in upper case.
    pub open spec fn upper_letter(self) -> char {
        match self {
            Radix::Hex => 'X',
            Radix::Bin => 'B',
            Radix::Oct => 'O',
        }
    }

    /// The greatest number of digits after the prefix.
    pub open spec fn max_digits(self) -> nat {
        match self {
            Radix::Hex => 8,
            Radix::Bin => 32,
            Radix::Oct => 14,
        }
    }
}

/// `s` is `0`, the radix letter in either case, and at most the radix's
/// number of its digits.
pub open spec fn prefixed(s: Seq<char>, r: Radix) -> bool {
    &&& 2 <= s.len() <= 2 + r.max_digits()
    &&& s[0] == '0'
    &&& (s[1] == r.letter() || s[1] == r.upper_letter())
    &&& forall|i: int| 2 <= i < s.len() ==> r.digit(#[trigger] s[i])
}

/// `s` is one to twelve decimal digits.
pub open spec fn decimal(s: Seq<char>) -> bool {
    &&& 1 <= s.len() <= 12
    &&& forall|i: int| 0 <= i < s.len() ==> is_decimal_digit(#[trigger] s[i])
}

/// `s` may stand in an address field: it is empty, or a prefixed
/// hexadecimal, binary or octal number, or a decimal number.
pub open spec fn valid_address(s: Seq<char>) -> bool {
    ||| s.len() == 0
    ||| prefixed(s, Radix::Hex)
    ||| prefixed(s, Radix::Bin)
    ||| prefixed(s, Radix::Oct)
    ||| decimal(s)
}

/// Returns true if `c` is a Unicode decimal digit.
pub fn decimal_digit(c: char) -> (b: bool)
    ensures
        b == is_decimal_digit(c),
{
    let u = c as u32;
    match u {
        0x30..=0x39 | 0x660..=0x669 | 0x6F0..=0x6F9 | 0x7C0..=0x7C9 | 0x966..=0x96F
        | 0x9E6..=0x9EF | 0xA66..=0xA6F | 0xAE6..=0xAEF | 0xB66..=0xB6F | 0xBE6..=0xBEF
        | 0xC66..=0xC6F | 0xCE6..=0xCEF | 0xD66..=0xD6F | 0xDE6..=0xDEF | 0xE50..=0xE59
        | 0xED0..=0xED9 | 0xF20..=0xF29 | 0x1040..=0x1049 | 0x1090..=0x1099
        | 0x17E0..=0x17E9 | 0x1810..=0x1819 | 0x1946..=0x194F | 0x19D0..=0x19D9
        | 0x1A80..=0x1A89 | 0x1A90..=0x1A99 | 0x1B50..=0x1B59 | 0x1BB0..=0x1BB9
        | 0x1C40..=0x1C49 | 0x1C50..=0x1C59 | 0xA620..=0xA629 | 0xA8D0..=0xA8D9
        | 0xA900..=0xA909 | 0xA9D0..=0xA9D9 | 0xA9F0..=0xA9F9 | 0xAA50..=0xAA59
        | 0xABF0..=0xABF9 | 0xFF10..=0xFF19 | 0x104A0..=0x104A9 | 0x10D30..=0x10D39
        | 0x10D40..=0x10D49 | 0x11066..=0x1106F | 0x110F0..=0x110F9 | 0x11136..=0x1113F
        | 0x111D0..=0x111D9 | 0x112F0..=0x112F9 | 0x11450..=0x11459 | 0x114D0..=0x114D9
        | 0x11650..=0x11659 | 0x116C0..=0x116C9 | 0x116D0..=0x116E3 | 0x11730..=0x11739
        | 0x118E0..=0x118E9 | 0x11950..=0x11959 | 0x11BF0..=0x11BF9 | 0x11C50..=0x11C59
        | 0x11D50..=0x11D59 | 0x11DA0..=0x11DA9 | 0x11F50..=0x11F59 | 0x16130..=0x16139
        | 0x16A60..=0x16A69 | 0x16AC0..=0x16AC9 | 0x16B50..=0x16B59 | 0x16D70..=0x16D79
        | 0x1CCF0..=0x1CCF9 | 0x1D7CE..=0x1D7FF | 0x1E140..=0x1E149 | 0x1E2F0..=0x1E2F9
        | 0x1E4F0..=0x1E4F9 | 0x1E5F1..=0x1E5FA | 0x1E950..=0x1E959
        | 0x1FBF0..=0x1FBF9 => true,
        _ => false,
    }
}

/// Returns true if `c` is a digit of the radix `r`.
fn radix_digit(r: Radix, c: char) -> (b: bool)
    ensures
        b == r.digit(c),
{
    match r {
        Radix::Hex => ('0' <= c && c <= '9') || ('a' <= c && c <= 'f') || ('A' <= c && c <= 'F'),
        Radix::Bin => c == '0' || c == '1',
        Radix::Oct => '0' <= c && c <= '7',
    }
}

/// Returns true if `s` is a prefixed number of the radix `r`.
fn is_prefixed(s: &str, r: Radix) -> (b: bool)
    ensures
        b == prefixed(s@, r),
{
    let n = s.unicode_len();
    let (letter, upper, max): (char, char, usize) = match r {
        Radix::Hex => ('x', 'X', 8),
        Radix::Bin => ('b', 'B', 32),
        Radix::Oct => ('o', 'O', 14),
    };
    if n < 2 || n > 2 + max {
        return false;
    }
    let first = s.get_char(0);
    let second = s.get_char(1);
    if first != '0' || (second != letter && second != upper) {
        return false;
    }
    let mut i: usize = 2;
    while i < n
        invariant
            2 <= i <= n,
            n == s@.len(),
            forall|k: int| 2 <= k < i ==> r.digit(#[trigger] s@[k]),
        decreases n - i,
    {
        if !radix_digit(r, s.get_char(i)) {
            return false;
        }
        i = i + 1;
    }
    true
}

/// Returns true if `s` is a decimal number of one to twelve digits.
fn is_decimal(s: &str) -> (b: bool)
    ensures
        b == decimal(s@),
{
    let n = s.unicode_len();
    if n < 1 || n > 12 {
        return false;
    }
    let mut i: usize = 0;
    while i < n
        invariant
            i <= n,
            n == s@.len(),
            forall|k: int| 0 <= k < i ==> is_decimal_digit(#[trigger] s@[k]),
        decreases n - i,
    {
        if !decimal_digit(s.get_char(i)) {
            return false;
        }
        i = i + 1;
    }
    true
}

/// Returns true if `s` may stand in an address field.
pub fn validaddr(s: &String) -> (b: bool)
    ensures
        b == valid_address(s@),
{
    let t = s.as_str();
    if t.unicode_len() == 0 {
        return true;
    }
    is_prefixed(t, Radix::Hex) || is_prefixed(t, Radix::Bin) || is_prefixed(t, Radix::Oct)
        || is_decimal(t)
}

} // verus!

verus! {

/// `0x` or `0X` followed by at most eight characters, each of `0` to `9`,
/// `a` to `f` or `A` to `F`, is a valid address; with more than eight, or
/// with any other character after the prefix, it is not.
pub proof fn law_hex_addresses(s: Seq<char>)
    requires
        s.len() >= 2,
        s[0] == '0',
        s[1] == 'x' || s[1] == 'X',
    ensures
        valid_address(s) <==> (s.len() <= 10 && forall|i: int|
            2 <= i < s.len() ==> ('0' <= #[trigger] s[i] <= '9' || 'a' <= s[i] <= 'f' || 'A' <= s[i] <= 'F')),
{
    assert(!is_decimal_digit(s[1]));
    assert(!decimal(s));
}

/// `0b` or `0B` followed by at most thirty-two characters `0` or `1` is a
/// valid address; with more, or with any other character, it is not.
pub proof fn law_bin_addresses(s: Seq<char>)
    requires
        s.len() >= 2,
        s[0] == '0',
        s[1] == 'b' || s[1] == 'B',
    ensures
        valid_address(s) <==> (s.len() <= 34 && forall|i: int| 2 <= i < s.len() ==> (#[trigger] s[i] == '0' || s[i] == '1')),
{
    assert(!is_decimal_digit(s[1]));
    assert(!decimal(s));
}

/// `0o` or `0O` followed by at most fourteen characters `0` to `7` is a
/// valid address; with more, or with any other character, it is not.
pub proof fn law_oct_addresses(s: Seq<char>)
    requires
        s.len() >= 2,
        s[0] == '0',
        s[1] == 'o' || s[1] == 'O',
    ensures
        valid_address(s) <==> (s.len() <= 16 && forall|i: int| 2 <= i < s.len() ==> '0' <= #[trigger] s[i] <= '7'),
{
    assert(!is_decimal_digit(s[1]));
    assert(!decimal(s));
}

/// A text of ASCII digits `0` to `9` is a valid address exactly when it has
/// at most twelve of them.
pub proof fn law_ascii_decimal_addresses(s: Seq<char>)
    requires
        forall|i: int| 0 <= i < s.len() ==> '0' <= #[trigger] s[i] <= '9',
    ensures
        valid_address(s) <==> s.len() <= 12,
{
    if s.len() >= 2 {
        assert('0' <= s[1] <= '9');
        assert(!prefixed(s, Radix::Hex));
        assert(!prefixed(s, Radix::Bin));
        assert(!prefixed(s, Radix::Oct));
    }
    if 1 <= s.len() <= 12 {
        assert forall|i: int| 0 <= i < s.len() implies is_decimal_digit(#[trigger] s[i]) by {
            assert('0' <= s[i] <= '9');
        }
    }
}

/// A text that starts with neither a decimal digit nor `0` followed by a
/// radix letter is not a valid address unless it is empty: a letter, a
/// sign or a space in front is refused.
pub proof fn law_leading_non_digit_refused(s: Seq<char>)
    requires
        s.len() >= 1,
        !is_decimal_digit(s[0]),
    ensures
        !valid_address(s),
{
    assert(s[0] != '0');
}

} // verus!
