//! Numbers as text, and texts without regard to case.
use vstd::prelude::*;
use vstd::string::StringExecFns;

verus! {

/// The character for a digit below ten.
pub open spec fn digit_char(digit: nat) -> char {
    if digit == 0 {
        '0'
    } else if digit == 1 {
        '1'
    } else if digit == 2 {
        '2'
    } else if digit == 3 {
        '3'
    } else if digit == 4 {
        '4'
    } else if digit == 5 {
        '5'
    } else if digit == 6 {
        '6'
    } else if digit == 7 {
        '7'
    } else if digit == 8 {
        '8'
    } else {
        '9'
    }
}

/// A number in decimal digits, without leading zeros.
pub open spec fn decimal_digits(n: nat) -> Seq<char>
    decreases n,
{
    if n < 10 {
        seq![digit_char(n)]
    } else {
        decimal_digits(n / 10).push(digit_char(n % 10))
    }
}

/// The text of one digit.
fn digit_text(digit: usize) -> (text: &'static str)
    requires
        digit < 10,
    ensures
        text@ == seq![digit_char(digit as nat)],
{
    proof {
        reveal_strlit("0");
        reveal_strlit("1");
        reveal_strlit("2");
        reveal_strlit("3");
        reveal_strlit("4");
        reveal_strlit("5");
        reveal_strlit("6");
        reveal_strlit("7");
        reveal_strlit("8");
        reveal_strlit("9");
    }
    if digit == 0 {
        "0"
    } else if digit == 1 {
        "1"
    } else if digit == 2 {
        "2"
    } else if digit == 3 {
        "3"
    } else if digit == 4 {
        "4"
    } else if digit == 5 {
        "5"
    } else if digit == 6 {
        "6"
    } else if digit == 7 {
        "7"
    } else if digit == 8 {
        "8"
    } else {
        "9"
    }
}

/// A number in decimal digits: see [`decimal_digits`].
pub fn decimal(n: usize) -> (text: String)
    ensures
        text@ == decimal_digits(n as nat),
    decreases n,
{
    if n < 10 {
        digit_text(n).to_owned()
    } else {
        decimal(n / 10).concat(digit_text(n % 10))
    }
}

/// A character in lower case, as far as it is a letter of the Latin
/// alphabet without marks; any other character stays as it is.
pub open spec fn spec_lower(c: char) -> char {
    if 'A' <= c && c <= 'Z' {
        ((c as u32) + 32) as char
    } else {
        c
    }
}

/// A text with each of its characters in lower case: see [`spec_lower`].
pub open spec fn lowercase_spec(text: Seq<char>) -> Seq<char> {
    text.map_values(|c: char| spec_lower(c))
}

/// A character in lower case: see [`spec_lower`].
pub fn lower(c: char) -> (lowered: char)
    ensures
        lowered == spec_lower(c),
{
    if 'A' <= c && c <= 'Z' {
        ((c as u8) + 32) as char
    } else {
        c
    }
}

/// Whether `text`, put in lower case, is `lowered`.
pub fn is_lowercase_of(text: &str, lowered: &str) -> (same: bool)
    ensures
        same == (lowercase_spec(text@) == lowered@),
{
    let len = text.unicode_len();
    if len != lowered.unicode_len() {
        return false;
    }
    let mut i: usize = 0;
    while i < len
        invariant
            i <= len,
            len == text@.len(),
            len == lowered@.len(),
            forall|j: int| 0 <= j < i ==> lowercase_spec(text@)[j] == lowered@[j],
        decreases len - i,
    {
        if lower(text.get_char(i)) != lowered.get_char(i) {
            assert(lowercase_spec(text@)[i as int] != lowered@[i as int]);
            return false;
        }
        i += 1;
    }
    assert(lowercase_spec(text@) =~= lowered@);
    true
}

} // verus!
