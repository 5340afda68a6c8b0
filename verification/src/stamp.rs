//! The time line that closes every message that leaves the process.

use vstd::prelude::*;
use vstd::string::{StrSliceExecFns, StringExecFns};

verus! {

/// The part of `text` before its first `'.'`; all of `text` if it holds none.
pub open spec fn before_dot(text: Seq<char>) -> Seq<char>
    decreases text.len(),
{
    if text.len() == 0 || text[0] == '.' {
        Seq::empty()
    } else {
        seq![text[0]] + before_dot(text.drop_first())
    }
}

/// `message`, then on a line of its own the clock reading `clock` cut to whole
/// seconds and marked as UTC.
pub open spec fn utc_line(message: Seq<char>, clock: Seq<char>) -> Seq<char> {
    message + "\n"@ + before_dot(clock) + " UTC"@
}

/// A prefix without `'.'` that ends at a `'.'` or at the end of the text is
/// the part before the first `'.'`.
proof fn lemma_before_dot_is_prefix(text: Seq<char>, end: int)
    requires
        0 <= end <= text.len(),
        forall|k: int| 0 <= k < end ==> text[k] != '.',
        end == text.len() || text[end] == '.',
    ensures
        before_dot(text) == text.take(end),
    decreases end,
{
    if end > 0 {
        lemma_before_dot_is_prefix(text.drop_first(), end - 1);
    }
}

/// The current UTC date and time as `chrono` prints a `NaiveDateTime`: date,
/// a space, time of day, and a fraction of the second where there is one.
///
/// Wraps `chrono::Utc::now`, `DateTime::naive_utc` and the `Display` of the
/// result. What comes back depends on the clock, so nothing is claimed of it.
/// `chrono` gives up on a system clock that reads earlier than 1970.
#[verifier::external_body]
fn utc_now_text() -> String {
    chrono::Utc::now().naive_utc().to_string()
}

/// Closes `message` with the time line for the clock reading `clock`.
///
/// `clock` is a date and time as text, with or without a fraction of the
/// second after a `'.'`; the fraction is dropped.
pub fn with_utc_line(message: &str, clock: &str) -> (stamped: String)
    ensures
        stamped@ == utc_line(message@, clock@),
{
    let length: usize = clock.unicode_len();
    let mut end: usize = 0;
    while end < length && clock.get_char(end) != '.'
        invariant
            end <= length,
            length == clock@.len(),
            forall|k: int| 0 <= k < end ==> clock@[k] != '.',
        decreases length - end,
    {
        end += 1;
    }
    proof {
        lemma_before_dot_is_prefix(clock@, end as int);
    }
    let mut stamped = String::from_str(message);
    stamped.append("\n");
    stamped.append(clock.substring_char(0, end));
    stamped.append(" UTC");
    stamped
}

/// Closes `message` with the time line for the present moment.
///
/// The result is `message` stamped with some clock reading; which one is up to
/// the clock.
pub fn add_utc_line(message: &str) -> (stamped: String)
    ensures
        exists|clock: Seq<char>| stamped@ == #[trigger] utc_line(message@, clock),
{
    let clock = utc_now_text();
    with_utc_line(message, clock.as_str())
}

} // verus!
