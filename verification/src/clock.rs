//! The wall clock, read as the text that the error envelope carries.

use vstd::prelude::*;
use crate::json::{all_plain, json_string_text, quoted};

verus! {

/// The pattern of the envelope's timestamp: year, month, day, hour, minute
/// and second as digits, with nothing between them.
pub open spec fn stamp_pattern() -> Seq<char> {
    "%Y%m%d%H%M%S"@
}

/// Whether `c` is a decimal digit.
pub open spec fn is_digit(c: char) -> bool {
    '0' as u32 <= c as u32 <= '9' as u32
}

/// Whether `s` has the form of the envelope's timestamp: the year, then two
/// digits each for month, day, hour, minute and second. A year from 0 to
/// 9999 is written with four digits, which makes fourteen digits in all. Any
/// other year is written with a sign and at least four digits.
pub open spec fn is_stamp(s: Seq<char>) -> bool {
    if s.len() == 14 {
        forall|i: int| 0 <= i < s.len() ==> is_digit(#[trigger] s[i])
    } else {
        &&& s.len() > 14
        &&& s[0] == '+' || s[0] == '-'
        &&& forall|i: int| 1 <= i < s.len() ==> is_digit(#[trigger] s[i])
    }
}

/// A timestamp holds plain characters only, so the envelope carries it
/// between double quotes as it is.
pub proof fn lemma_stamp_is_plain(s: Seq<char>)
    requires
        is_stamp(s),
    ensures
        all_plain(s),
        json_string_text(s) == quoted(s),
{
}

/// Calls `chrono::Local::now` and formats the moment with `pattern`.
///
/// Taken on trust: that the call returns, and that the text has the form
/// that chrono documents for the six specifiers of the pattern: the year
/// padded with zeros to four digits, with a sign only outside 0 to 9999,
/// and two digits for each of the others. Which moment it is depends on the
/// machine's clock and time zone, and nothing is claimed of it. The pattern
/// is held to the one of the envelope, so that formatting cannot fail.
#[verifier::external_body]
fn local_time(pattern: &str) -> (text: String)
    requires
        pattern@ == stamp_pattern(),
    ensures
        is_stamp(text@),
{
    chrono::Local::now().format(pattern).to_string()
}

/// The local time of the call, as the envelope writes it.
pub fn timestamp() -> (text: String)
    ensures
        is_stamp(text@),
{
    local_time("%Y%m%d%H%M%S")
}

} // verus!
