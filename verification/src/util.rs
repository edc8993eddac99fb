//! Reading the words of a command line: colours and plain text.

use vstd::prelude::*;
use vstd::string::StrSliceExecFns;

verus! {

/// Why a word is not a colour.
#[derive(Clone, Copy, Debug, PartialEq, Eq, Structural)]
pub enum ColorError {
    /// The word does not have six characters.
    Length,
    /// A character of the word is not a hexadecimal digit.
    Digit,
}

/// The value of a hexadecimal digit, in either case; `None` for any other
/// character.
pub open spec fn digit_value(c: char) -> Option<u8> {
    if '0' <= c <= '9' {
        Some((c as u32 - '0' as u32) as u8)
    } else if 'a' <= c <= 'f' {
        Some((c as u32 - 'a' as u32 + 10) as u8)
    } else if 'A' <= c <= 'F' {
        Some((c as u32 - 'A' as u32 + 10) as u8)
    } else {
        None
    }
}

/// Whether a word is a colour: six hexadecimal digits and nothing else.
pub open spec fn is_color(word: Seq<char>) -> bool {
    word.len() == 6 && forall|i: int| 0 <= i < 6 ==> digit_value(#[trigger] word[i]) is Some
}

/// The colour channel that the two digits from `at` on spell, the first
/// digit counting sixteenfold.
pub open spec fn channel(word: Seq<char>, at: int) -> u8 {
    (16 * digit_value(word[at]).unwrap() + digit_value(word[at + 1]).unwrap()) as u8
}

/// Reads one hexadecimal digit.
pub fn hex_digit(c: char) -> (value: Option<u8>)
    ensures
        value == digit_value(c),
        value matches Some(v) ==> v < 16,
{
    if '0' <= c && c <= '9' {
        Some((c as u32 - '0' as u32) as u8)
    } else if 'a' <= c && c <= 'f' {
        Some((c as u32 - 'a' as u32 + 10) as u8)
    } else if 'A' <= c && c <= 'F' {
        Some((c as u32 - 'A' as u32 + 10) as u8)
    } else {
        None
    }
}

/// Reads the colour channel that the two digits from `at` on spell.
fn read_channel(word: &str, at: usize) -> (value: Option<u8>)
    requires
        word@.len() == 6,
        at <= 4,
    ensures
        match value {
            Some(v) => digit_value(word@[at as int]) is Some && digit_value(word@[at + 1]) is Some
                && v == channel(word@, at as int),
            None => digit_value(word@[at as int]) is None || digit_value(word@[at + 1]) is None,
        },
{
    match (hex_digit(word.get_char(at)), hex_digit(word.get_char(at + 1))) {
        (Some(high), Some(low)) => Some(16 * high + low),
        _ => None,
    }
}

/// Reads a colour from six hexadecimal digits, two for each of red, green
/// and blue, such as `FF8000`. Any other word is refused.
pub fn hex_to_rgb(hex: &str) -> (rgb: Result<[u8; 3], ColorError>)
    ensures
        match rgb {
            Ok(rgb) => is_color(hex@) && rgb@ == seq![
                channel(hex@, 0),
                channel(hex@, 2),
                channel(hex@, 4),
            ],
            Err(ColorError::Length) => hex@.len() != 6,
            Err(ColorError::Digit) => hex@.len() == 6 && !is_color(hex@),
        },
{
    if hex.unicode_len() != 6 {
        return Err(ColorError::Length);
    }
    match (read_channel(hex, 0), read_channel(hex, 2), read_channel(hex, 4)) {
        (Some(red), Some(green), Some(blue)) => {
            let rgb: [u8; 3] = [red, green, blue];
            assert(rgb@ =~= seq![channel(hex@, 0), channel(hex@, 2), channel(hex@, 4)]);
            Ok(rgb)
        },
        _ => Err(ColorError::Digit),
    }
}

/// Tells whether two texts are the same, character by character.
pub fn same_text(a: &str, b: &str) -> (same: bool)
    ensures
        same == (a@ == b@),
{
    let n = a.unicode_len();
    if b.unicode_len() != n {
        return false;
    }
    let mut i: usize = 0;
    while i < n
        invariant
            n == a@.len(),
            n == b@.len(),
            i <= n,
            forall|k: int| 0 <= k < i ==> a@[k] == b@[k],
        decreases n - i,
    {
        if a.get_char(i) != b.get_char(i) {
            return false;
        }
        i += 1;
    }
    assert(a@ =~= b@);
    true
}

} // verus!
