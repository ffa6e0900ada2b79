//! JSON text for the values that responses carry: quoted strings and numbers.

use vstd::prelude::*;
use vstd::string::*;

verus! {

/// Whether JSON writes the character as it is inside a string literal: every
/// character but the double quote, the backslash and the control characters
/// below the space.
pub open spec fn is_plain(c: char) -> bool {
    c != '"' && c != '\\' && c as u32 >= 0x20
}

/// Whether every character of `s` is plain.
pub open spec fn all_plain(s: Seq<char>) -> bool {
    forall|i: int| 0 <= i < s.len() ==> is_plain(#[trigger] s[i])
}

/// The text `s` between double quotes.
pub open spec fn quoted(s: Seq<char>) -> Seq<char> {
    seq!['"'] + s + seq!['"']
}

/// The JSON string literal that stands for a text `s` in which some character
/// is not plain: the text between double quotes, with those characters
/// written as escapes.
pub uninterp spec fn json_escaped_text(s: Seq<char>) -> Seq<char>;

/// The JSON string literal that stands for the text `s`. A text of plain
/// characters stands between double quotes as it is.
pub open spec fn json_string_text(s: Seq<char>) -> Seq<char> {
    if all_plain(s) {
        quoted(s)
    } else {
        json_escaped_text(s)
    }
}

/// Calls `serde_json::to_string` on a string slice.
///
/// Taken on trust: the call always succeeds for a string slice (the encoder
/// writes into a growable buffer and a `str` has no way to fail); a text
/// without a double quote, a backslash or a control character comes back
/// between double quotes and otherwise unchanged; and the text that comes
/// back for any other `s` depends on the characters of `s` alone, which is
/// what [`json_escaped_text`] names.
#[verifier::external_body]
fn serde_string(s: &str) -> (encoded: Option<String>)
    ensures
        encoded.deep_view() == Some(
            if all_plain(s@) {
                quoted(s@)
            } else {
                json_escaped_text(s@)
            },
        ),
{
    serde_json::to_string(s).ok()
}

/// Encodes `s` as a JSON string literal.
pub fn quote(s: &str) -> (encoded: String)
    ensures
        encoded@ == json_string_text(s@),
{
    serde_string(s).unwrap()
}

/// The character of the decimal digit `d`.
pub open spec fn digit_char(d: nat) -> char
    recommends
        d < 10,
{
    ('0' as nat + d) as char
}

/// The decimal notation of `n`, without sign and without leading zeros.
pub open spec fn decimal_text(n: nat) -> Seq<char>
    decreases n,
{
    if n < 10 {
        seq![digit_char(n)]
    } else {
        decimal_text(n / 10).push(digit_char(n % 10))
    }
}

fn digit(d: u16) -> (text: &'static str)
    requires
        d < 10,
    ensures
        text@ == seq![digit_char(d as nat)],
{
    proof {
        reveal_strlit("0");
        reveal_strlit("1");
        reveal_strlit("2");
        reveal_strlit("3");
        reveal_strlit("4");
        reveal_strlit("5");
        reveal_strlit("6");
        reveal_strlit("7");
        reveal_strlit("8");
        reveal_strlit("9");
    }
    let text = match d {
        0 => "0",
        1 => "1",
        2 => "2",
        3 => "3",
        4 => "4",
        5 => "5",
        6 => "6",
        7 => "7",
        8 => "8",
        _ => "9",
    };
    assert(text@ =~= seq![digit_char(d as nat)]);
    text
}

/// Writes `n` as a JSON number.
pub fn number(n: u16) -> (encoded: String)
    ensures
        encoded@ == decimal_text(n as nat),
    decreases n,
{
    if n < 10 {
        String::from_str(digit(n))
    } else {
        let mut encoded = number(n / 10);
        encoded.append(digit(n % 10));
        encoded
    }
}

} // verus!
