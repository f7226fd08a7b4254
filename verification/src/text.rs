//! Text helpers shared by the rest of the crate.

use vstd::prelude::*;
use vstd::utf8::{encode_utf8, encode_utf8_decode_utf8, is_ascii_chars};

verus! {

/// The text of an optional string.
pub open spec fn text_of(text: Option<String>) -> Option<Seq<char>> {
    match text {
        Some(text) => Some(text@),
        None => None,
    }
}

/// Whether two string slices hold the same characters.
pub fn same_text(a: &str, b: &str) -> (r: bool)
    ensures
        r == (a@ == b@),
{
    let left = a.as_bytes();
    let right = b.as_bytes();
    proof {
        // Texts with the same bytes are the same text.
        encode_utf8_decode_utf8(a@);
        encode_utf8_decode_utf8(b@);
    }
    if left.len() != right.len() {
        return false;
    }
    let mut index: usize = 0;
    while index < left.len()
        invariant
            left@ == encode_utf8(a@),
            right@ == encode_utf8(b@),
            left@.len() == right@.len(),
            index <= left@.len(),
            forall|j: int| 0 <= j < index ==> left@[j] == right@[j],
        decreases left@.len() - index,
    {
        if left[index] != right[index] {
            return false;
        }
        index += 1;
    }
    proof {
        assert(left@ =~= right@);
    }
    true
}

/// A text that starts with `head` followed by `middle` also starts with `head`
/// followed by any start of `middle`.
pub proof fn lemma_start_of_start(
    head: Seq<char>,
    start: Seq<char>,
    middle: Seq<char>,
    whole: Seq<char>,
)
    requires
        start.is_prefix_of(middle),
        (head + middle).is_prefix_of(whole),
    ensures
        (head + start).is_prefix_of(whole),
{
    assert forall|i: int| 0 <= i < (head + start).len() implies (head + start)[i] == whole[i] by {
        assert(whole.subrange(0, (head + middle).len() as int)[i] == (head + middle)[i]);
        if i >= head.len() {
            assert(middle.subrange(0, start.len() as int)[i - head.len()] == start[i
                - head.len()]);
        }
    }
    assert(head + start =~= whole.subrange(0, (head + start).len() as int));
}

/// The character that writes the decimal digit `d`.
pub open spec fn digit_char(d: int) -> char
    recommends
        0 <= d <= 9,
{
    (('0' as u8 + d) as u8) as char
}

/// The decimal digits of a natural number, most significant first, without
/// leading zeros.
pub open spec fn digits(n: nat) -> Seq<char>
    decreases n,
{
    if n < 10 {
        seq![digit_char(n as int)]
    } else {
        digits(n / 10).push(digit_char((n % 10) as int))
    }
}

/// The decimal rendering of an integer: a minus sign for negative numbers,
/// then the digits of its magnitude.
pub open spec fn decimal(i: int) -> Seq<char> {
    if i < 0 {
        seq!['-'] + digits((-i) as nat)
    } else {
        digits(i as nat)
    }
}

fn digit_text(d: u64) -> (r: &'static str)
    requires
        d < 10,
    ensures
        r@ == seq![digit_char(d as int)],
{
    let r = if d == 0 {
        "0"
    } else if d == 1 {
        "1"
    } else if d == 2 {
        "2"
    } else if d == 3 {
        "3"
    } else if d == 4 {
        "4"
    } else if d == 5 {
        "5"
    } else if d == 6 {
        "6"
    } else if d == 7 {
        "7"
    } else if d == 8 {
        "8"
    } else {
        "9"
    };
    proof {
        reveal_strlit("0");
        reveal_strlit("1");
        reveal_strlit("2");
        reveal_strlit("3");
        reveal_strlit("4");
        reveal_strlit("5");
        reveal_strlit("6");
        reveal_strlit("7");
        reveal_strlit("8");
        reveal_strlit("9");
        assert(r@ =~= seq![digit_char(d as int)]);
    }
    r
}

fn digits_text(n: u64) -> (r: String)
    ensures
        r@ == digits(n as nat),
    decreases n,
{
    if n < 10 {
        String::from_str(digit_text(n))
    } else {
        let head = digits_text(n / 10);
        let r = head.concat(digit_text(n % 10));
        proof {
            assert(r@ =~= digits(n as nat));
        }
        r
    }
}

/// Writes an integer in decimal.
pub fn decimal_text(i: i64) -> (r: String)
    ensures
        r@ == decimal(i as int),
{
    if i < 0 {
        let magnitude: u64 = if i == i64::MIN {
            9223372036854775808u64
        } else {
            (-i) as u64
        };
        let r = String::from_str("-").concat(digits_text(magnitude).as_str());
        proof {
            reveal_strlit("-");
            assert(r@ =~= decimal(i as int));
        }
        r
    } else {
        digits_text(i as u64)
    }
}

/// The lower-case partner of an ASCII capital letter; any other character
/// unchanged.
pub open spec fn ascii_lower(c: char) -> char {
    if 'A' <= c <= 'Z' {
        ((c as u8 + 32) as u8) as char
    } else {
        c
    }
}

/// What `str::to_lowercase` returns for the text `text`: its lower-case
/// equivalent in the sense of Unicode.
pub uninterp spec fn lowercase(text: Seq<char>) -> Seq<char>;

/// The lower-case form of a text. On ASCII text it replaces each capital
/// letter by its lower-case partner; on any other text it is whatever Unicode
/// says.
pub open spec fn folded(text: Seq<char>) -> Seq<char> {
    if is_ascii_chars(text) {
        text.map_values(|c: char| ascii_lower(c))
    } else {
        lowercase(text)
    }
}

/// Whether a text is made of ASCII characters none of which is a capital
/// letter.
pub open spec fn is_lower_ascii(text: Seq<char>) -> bool {
    forall|i: int|
        0 <= i < text.len() ==> '\0' <= #[trigger] text[i] <= '\u{7f}' && !('A' <= text[i]
            <= 'Z')
}

/// Lower-casing leaves ASCII text without capital letters as it is.
pub proof fn lemma_lower_ascii_is_folded(text: Seq<char>)
    requires
        is_lower_ascii(text),
    ensures
        folded(text) == text,
{
    assert(is_ascii_chars(text));
    assert(text.map_values(|c: char| ascii_lower(c)) =~= text);
}

/// Calls `str::to_lowercase`. The result is the Unicode lower-case equivalent
/// of the argument; on text made of ASCII characters alone, Unicode lower-casing
/// changes the letters `A` to `Z` into `a` to `z` and nothing else.
#[verifier::external_body]
pub(crate) fn to_lowercase(text: &str) -> (r: String)
    ensures
        r@ == lowercase(text@),
        is_ascii_chars(text@) ==> r@ == text@.map_values(|c: char| ascii_lower(c)),
{
    text.to_lowercase()
}

} // verus!
