//! Creation timestamps: where they come from and what shape they have.

use vstd::prelude::*;

verus! {

/// Whether `c` is one of the ten decimal digits.
pub open spec fn is_digit(c: char) -> bool {
    '0' <= c <= '9'
}

/// The punctuation that the timestamp shape fixes at position `i`, if any.
pub open spec fn separator_at(i: int) -> Option<char> {
    if i == 4 || i == 7 {
        Some('-')
    } else if i == 10 {
        Some(' ')
    } else if i == 13 || i == 16 {
        Some(':')
    } else {
        None
    }
}

/// Whether position `i` of `s` holds what the timestamp shape asks for there.
pub open spec fn slot_fits(s: Seq<char>, i: int) -> bool {
    match separator_at(i) {
        Some(c) => s[i] == c,
        None => is_digit(s[i]),
    }
}

/// The shape `YYYY-MM-DD HH:MM:SS`: nineteen characters, digits everywhere but
/// at the two dashes, the blank and the two colons.
pub open spec fn timestamp_format(s: Seq<char>) -> bool {
    &&& s.len() == 19
    &&& forall|i: int| 0 <= i < 19 ==> #[trigger] slot_fits(s, i)
}

/// Decides whether `s` has the shape `YYYY-MM-DD HH:MM:SS`.
pub fn is_timestamp(s: &str) -> (ok: bool)
    ensures
        ok == timestamp_format(s@),
{
    if s.unicode_len() != 19 {
        return false;
    }
    let mut i: usize = 0;
    while i < 19
        invariant
            i <= 19,
            s@.len() == 19,
            forall|j: int| 0 <= j < i ==> #[trigger] slot_fits(s@, j),
        decreases 19 - i,
    {
        let c = s.get_char(i);
        let fits = if i == 4 || i == 7 {
            c == '-'
        } else if i == 10 {
            c == ' '
        } else if i == 13 || i == 16 {
            c == ':'
        } else {
            '0' <= c && c <= '9'
        };
        if !fits {
            assert(!slot_fits(s@, i as int));
            return false;
        }
        i += 1;
    }
    true
}

/// The pattern under which a creation time is rendered: year, month and day
/// with dashes, a blank, then hour, minute and second with colons.
pub open spec fn timestamp_pattern() -> Seq<char> {
    "%Y-%m-%d %H:%M:%S"@
}

/// What the clock can yield as a creation time. Up to the year 9999 the text
/// has the shape `YYYY-MM-DD HH:MM:SS`. From the year 10000 on the year is
/// written with a sign and five or more digits, so the text is longer than
/// the nineteen characters of that shape.
pub open spec fn clock_text(s: Seq<char>) -> bool {
    timestamp_format(s) || s.len() > 19
}

/// Reads the system clock with `chrono::Utc::now` and renders the instant
/// with `DateTime::format` under the given pattern, which must be
/// [`timestamp_pattern`]: chrono fails on a pattern that it cannot parse.
///
/// The text depends on the clock. Whatever the clock says, chrono writes the
/// month, the day, the hour, the minute and the second with two digits each,
/// and the year with four digits as long as it lies between 0 and 9999; a
/// later year gets a plus sign and at least five digits. That is all the
/// contract claims. `Utc::now` panics when the clock stands before 1970 or
/// beyond the last year that chrono can hold.
#[verifier::external_body]
fn utc_now_text(pattern: &str) -> (text: String)
    requires
        pattern@ == timestamp_pattern(),
    ensures
        clock_text(text@),
{
    chrono::Utc::now().format(pattern).to_string()
}

/// The current time in UTC as a creation time.
pub fn utc_timestamp() -> (text: String)
    ensures
        clock_text(text@),
{
    utc_now_text("%Y-%m-%d %H:%M:%S")
}

} // verus!
