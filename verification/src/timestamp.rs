//! Creation timestamps: telling seconds from milliseconds, and writing how
//! long ago an instant was.

use crate::decimal::{decimal_int, lemma_decimal_int_is_no_word, signed_to_decimal};
use vstd::prelude::*;

verus! {

/// A timestamp beyond this magnitude is taken to count milliseconds.
pub const MILLISECOND_THRESHOLD: i64 = 1_000_000_000_000;

/// First second of the earliest instant the calendar can hold, which is
/// `chrono`'s `DateTime::<Utc>::MIN_UTC`: midnight of January 1 in the year
/// -262143.
pub const MIN_UTC_SECONDS: i64 = -8_334_601_228_800;

/// Last second of the latest instant the calendar can hold, which is
/// `chrono`'s `DateTime::<Utc>::MAX_UTC`: the end of December 31 in the
/// year 262142.
pub const MAX_UTC_SECONDS: i64 = 8_210_266_876_799;

/// The seconds since the epoch that a raw timestamp stands for.
///
/// A value whose magnitude exceeds [`MILLISECOND_THRESHOLD`] counts
/// milliseconds and is divided by 1000, rounding toward zero; any other
/// value already counts seconds.
pub open spec fn epoch_seconds(raw: int) -> int {
    if raw > MILLISECOND_THRESHOLD {
        raw / 1000
    } else if raw < -MILLISECOND_THRESHOLD {
        -((-raw) / 1000)
    } else {
        raw
    }
}

/// Whether a count of seconds since the epoch names an instant that the
/// calendar can hold.
pub open spec fn utc_representable(secs: int) -> bool {
    MIN_UTC_SECONDS <= secs <= MAX_UTC_SECONDS
}

/// Reduces a raw timestamp of unknown unit to seconds since the epoch.
pub fn timestamp_seconds(raw: i64) -> (secs: i64)
    ensures
        secs == epoch_seconds(raw as int),
        -MILLISECOND_THRESHOLD <= raw <= MILLISECOND_THRESHOLD ==> secs == raw,
        raw > MILLISECOND_THRESHOLD ==> secs == raw / 1000,
        raw < -MILLISECOND_THRESHOLD ==> secs == -((-raw) / 1000),
{
    if raw > MILLISECOND_THRESHOLD || raw < -MILLISECOND_THRESHOLD {
        raw / 1000
    } else {
        raw
    }
}

/// Calls `chrono::TimeZone::timestamp_opt` on `chrono::Utc` with zero
/// nanoseconds and reports whether it yields a single instant. It does so
/// exactly for the seconds between [`MIN_UTC_SECONDS`] and
/// [`MAX_UTC_SECONDS`]; outside that range it yields none, and it never
/// yields two.
#[verifier::external_body]
fn utc_instant_exists(secs: i64) -> (found: bool)
    ensures
        found == utc_representable(secs as int),
{
    match chrono::TimeZone::timestamp_opt(&chrono::Utc, secs, 0) {
        chrono::LocalResult::Single(_) => true,
        chrono::LocalResult::Ambiguous(_, _) => false,
        chrono::LocalResult::None => false,
    }
}

/// The phrase for a span too short to count.
pub open spec fn present_word() -> Seq<char> {
    seq!['n', 'o', 'w']
}

/// What follows the span in a phrase about the past, as in `3 minutes ago`.
pub open spec fn past_marker() -> Seq<char> {
    seq![' ', 'a', 'g', 'o']
}

/// What precedes the span in a phrase about the future, as in `in 3 minutes`.
pub open spec fn future_marker() -> Seq<char> {
    seq!['i', 'n', ' ']
}

/// Whether a text has the shape of a relative-time phrase: the word `now`,
/// a span followed by ` ago`, or `in ` followed by a span. The span is never
/// empty.
pub open spec fn is_relative_phrase(text: Seq<char>) -> bool {
    ||| text == present_word()
    ||| (text.len() > past_marker().len() && past_marker().is_suffix_of(text))
    ||| (text.len() > future_marker().len() && future_marker().is_prefix_of(text))
}

/// Calls `chrono_humanize::HumanTime::from` on the instant at `secs` and
/// writes the outcome with its `Display` impl, in its rough accuracy. The
/// span measures from the machine's clock at the time of the call, so the
/// wording is not stated; its shape is. The phrase is `now` for a span
/// under eleven seconds, the span followed by ` ago` for an earlier
/// instant, and `in ` followed by the span for a later one. The instant is
/// made with `chrono::TimeZone::timestamp_opt`, which is why `secs` has to
/// be representable. `chrono` takes the clock to be set past the epoch.
#[verifier::external_body]
fn relative_phrase(secs: i64) -> (phrase: String)
    requires
        utc_representable(secs as int),
    ensures
        is_relative_phrase(phrase@),
{
    let instant = chrono::TimeZone::timestamp_opt(&chrono::Utc, secs, 0).unwrap();
    chrono_humanize::HumanTime::from(instant).to_string()
}

/// The text of the creation column: the phrase where there is one, the raw
/// timestamp in decimal notation otherwise.
pub open spec fn created_text(raw: int, phrase: Option<Seq<char>>) -> Seq<char> {
    match phrase {
        Some(p) => p,
        None => decimal_int(raw),
    }
}

/// Chooses the text of the creation column from the raw timestamp and the
/// phrase that was found for it, if any.
pub fn created_column(raw: i64, phrase: Option<String>) -> (text: String)
    ensures
        text@ == created_text(
            raw as int,
            match phrase {
                Some(p) => Some(p@),
                None => None,
            },
        ),
{
    match phrase {
        Some(p) => p,
        None => signed_to_decimal(raw),
    }
}

/// What is known of the creation column's text for a raw timestamp, whatever
/// the clock reads. Where the calendar can hold the instant that the
/// timestamp stands for, the text is a relative-time phrase; where it
/// cannot, the text is the raw timestamp in decimal notation.
pub open spec fn is_created_text(raw: int, text: Seq<char>) -> bool {
    &&& utc_representable(epoch_seconds(raw)) ==> is_relative_phrase(text)
    &&& !utc_representable(epoch_seconds(raw)) ==> text == decimal_int(raw)
}

/// The creation column is never empty, and its shape tells which case held:
/// it is a relative-time phrase exactly when the calendar can hold the
/// instant, since a number in decimal notation is never such a phrase.
pub proof fn lemma_created_text_tells_its_case(raw: int, text: Seq<char>)
    requires
        is_created_text(raw, text),
    ensures
        text.len() > 0,
        is_relative_phrase(text) <==> utc_representable(epoch_seconds(raw)),
        text == decimal_int(raw) <==> !utc_representable(epoch_seconds(raw)),
{
    lemma_decimal_int_is_no_word(raw);
}

/// Writes a creation timestamp for display.
///
/// The timestamp is reduced to seconds. Where the calendar can hold that
/// instant, the result is a phrase relative to the current time; where it
/// cannot, the result is the raw timestamp in decimal notation.
pub fn convert_date_thingi(created_at: i64) -> (text: String)
    ensures
        is_created_text(created_at as int, text@),
{
    let secs: i64 = timestamp_seconds(created_at);
    let phrase = if utc_instant_exists(secs) {
        Some(relative_phrase(secs))
    } else {
        None
    };
    created_column(created_at, phrase)
}

} // verus!
