//! Time as the store sees it: microseconds since the Unix epoch, UTC.

use vstd::prelude::*;

verus! {

/// Microseconds in one second.
pub const MICROS_PER_SECOND: i64 = 1_000_000;

/// The instant `seconds` after `now`, held within the range of a timestamp.
pub open spec fn deadline_spec(now: int, seconds: int) -> int {
    let t = now + seconds * 1_000_000;
    if t > i64::MAX {
        i64::MAX as int
    } else if t < i64::MIN {
        i64::MIN as int
    } else {
        t
    }
}

/// The instant `seconds` after `now`; saturates at the ends of the range.
pub fn deadline_after(now: i64, seconds: i64) -> (t: i64)
    ensures
        t == deadline_spec(now as int, seconds as int),
{
    let wide: i128 = now as i128 + seconds as i128 * 1_000_000;
    if wide > i64::MAX as i128 {
        i64::MAX
    } else if wide < i64::MIN as i128 {
        i64::MIN
    } else {
        wide as i64
    }
}

/// The current instant (`chrono::Utc::now`, read with
/// `DateTime::timestamp_micros`). It depends on the clock, so nothing is
/// claimed of it.
#[verifier::external_body]
pub(crate) fn now_micros() -> i64 {
    chrono::Utc::now().timestamp_micros()
}

/// The RFC 3339 text that chrono writes for an instant, where it can
/// represent the instant.
pub uninterp spec fn rfc3339_text(micros: int) -> Option<Seq<char>>;

/// RFC 3339 text of an instant (`chrono::DateTime::from_timestamp_micros`,
/// then `DateTime::to_rfc3339`); `None` where chrono cannot represent the
/// instant. The text is a function of the instant alone.
#[verifier::external_body]
pub(crate) fn rfc3339(micros: i64) -> (r: Option<String>)
    ensures
        r.deep_view() == rfc3339_text(micros as int),
{
    match chrono::DateTime::from_timestamp_micros(micros) {
        Some(t) => Some(t.to_rfc3339()),
        None => None,
    }
}

/// One line of a lifecycle log: the instant as RFC 3339 text, a space,
/// and the text; `None` where the instant has no such text.
pub open spec fn log_entry_text(micros: int, text: Seq<char>) -> Option<Seq<char>> {
    match rfc3339_text(micros) {
        Some(stamp) => Some(stamp + " "@ + text),
        None => None,
    }
}

/// Builds [`log_entry_text`].
pub fn log_entry_at(micros: i64, text: &str) -> (r: Option<String>)
    ensures
        r.deep_view() == log_entry_text(micros as int, text@),
{
    match rfc3339(micros) {
        Some(stamp) => Some(stamp.concat(" ").concat(text)),
        None => None,
    }
}

/// One line of a lifecycle log, stamped with the current instant; `None`
/// where the clock gives an instant that has no RFC 3339 text.
pub fn log_entry(text: &str) -> (r: Option<String>)
    ensures
        exists|micros: int| r.deep_view() == #[trigger] log_entry_text(micros, text@),
{
    let now = now_micros();
    let r = log_entry_at(now, text);
    assert(r.deep_view() == log_entry_text(now as int, text@));
    r
}

} // verus!
