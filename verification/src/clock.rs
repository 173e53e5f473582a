//! Minute stamps of the local clock, as they appear in commit messages and in
//! the names of unsorted buffers.

use vstd::prelude::*;

verus! {

/// Pattern of the stamp that becomes a commit message:
/// day, month and year joined by `_`, then `-`, then hour and minute joined by `_`.
pub const MESSAGE_PATTERN: &'static str = "%d_%b_%y-%H_%M";

/// Pattern of the stamp that becomes part of a buffer's name:
/// day, month and year joined by `-`, then `:`, then hour and minute joined by `-`.
pub const NAME_PATTERN: &'static str = "%d-%b-%y:%H-%M";

/// A decimal digit.
pub open spec fn is_digit(c: char) -> bool {
    '0' <= c && c <= '9'
}

/// One of the twelve English three-letter month names.
pub open spec fn is_month_name(s: Seq<char>) -> bool {
    ||| s == seq!['J', 'a', 'n']
    ||| s == seq!['F', 'e', 'b']
    ||| s == seq!['M', 'a', 'r']
    ||| s == seq!['A', 'p', 'r']
    ||| s == seq!['M', 'a', 'y']
    ||| s == seq!['J', 'u', 'n']
    ||| s == seq!['J', 'u', 'l']
    ||| s == seq!['A', 'u', 'g']
    ||| s == seq!['S', 'e', 'p']
    ||| s == seq!['O', 'c', 't']
    ||| s == seq!['N', 'o', 'v']
    ||| s == seq!['D', 'e', 'c']
}

/// The shape of a minute stamp: two digits of the day, the month's name, two
/// digits of the year, two of the hour and two of the minute. `date_sep`
/// stands between the parts of the date, `mid_sep` between date and time,
/// `time_sep` between hour and minute.
pub open spec fn is_stamp(s: Seq<char>, date_sep: char, mid_sep: char, time_sep: char) -> bool {
    &&& s.len() == 15
    &&& is_digit(s[0]) && is_digit(s[1])
    &&& s[2] == date_sep
    &&& is_month_name(s.subrange(3, 6))
    &&& s[6] == date_sep
    &&& is_digit(s[7]) && is_digit(s[8])
    &&& s[9] == mid_sep
    &&& is_digit(s[10]) && is_digit(s[11])
    &&& s[12] == time_sep
    &&& is_digit(s[13]) && is_digit(s[14])
}

/// A stamp as it stands in a commit message, such as `05_Mar_24-17_42`.
pub open spec fn is_message_stamp(s: Seq<char>) -> bool {
    is_stamp(s, '_', '-', '_')
}

/// A stamp as it stands in a buffer's name, such as `05-Mar-24:17-42`.
pub open spec fn is_name_stamp(s: Seq<char>) -> bool {
    is_stamp(s, '-', ':', '-')
}

/// Calls `chrono::Local::now` and `chrono::DateTime::format`, and writes the
/// result out. The time read differs from call to call, so the contract
/// states only the shape that each of the two patterns gives to every time:
/// `%d`, `%y`, `%H` and `%M` write two digits, `%b` writes an English
/// three-letter month name, and every other character of the pattern is
/// copied.
#[verifier::external_body]
fn format_local_now(pattern: &str) -> (stamp: String)
    requires
        pattern@ == MESSAGE_PATTERN@ || pattern@ == NAME_PATTERN@,
    ensures
        pattern@ == MESSAGE_PATTERN@ ==> is_message_stamp(stamp@),
        pattern@ == NAME_PATTERN@ ==> is_name_stamp(stamp@),
{
    chrono::Local::now().format(pattern).to_string()
}

/// The current local minute in the form of a commit message.
pub fn get_now() -> (stamp: String)
    ensures
        is_message_stamp(stamp@),
{
    proof {
        lemma_patterns_differ();
    }
    format_local_now(MESSAGE_PATTERN)
}

/// The current local minute in the form used inside a buffer's name.
pub fn get_now_for_name() -> (stamp: String)
    ensures
        is_name_stamp(stamp@),
{
    proof {
        lemma_patterns_differ();
    }
    format_local_now(NAME_PATTERN)
}

/// The two patterns are different texts.
proof fn lemma_patterns_differ()
    ensures
        MESSAGE_PATTERN@ != NAME_PATTERN@,
{
    reveal_strlit("%d_%b_%y-%H_%M");
    reveal_strlit("%d-%b-%y:%H-%M");
    assert(MESSAGE_PATTERN@[2] == '_');
    assert(NAME_PATTERN@[2] == '-');
}

/// A stamp of either form has no `/` in it, so it names no directory.
pub proof fn lemma_stamp_has_no_slash(s: Seq<char>)
    requires
        is_message_stamp(s) || is_name_stamp(s),
    ensures
        !s.contains('/'),
{
    assert forall|i: int| 0 <= i < s.len() implies s[i] != '/' by {
        if 3 <= i < 6 {
            let m = s.subrange(3, 6);
            assert(m[i - 3] == s[i]);
        }
    }
}

} // verus!
