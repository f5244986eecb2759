//! Wording that other crates supply: how long ago something was, and the
//! line of an HTTP status.

use vstd::prelude::*;
use crate::text::text_of;

verus! {

/// The most seconds, in either direction, that a `chrono::Duration` can be
/// made of.
pub const MAX_SPAN_SECS: i64 = 9_223_372_036_854_775;

/// The words in which `chrono_humanize` tells roughly, and as a time past,
/// a span of `seconds` seconds.
pub uninterp spec fn rough_past(seconds: int) -> Seq<char>;

/// `chrono_humanize::HumanTime::to_text_en` with `Accuracy::Rough` and
/// `Tense::Past`, on the `chrono::Duration` that `chrono::Duration::seconds`
/// makes of `seconds`. The text depends on the span alone. A span that
/// `chrono::Duration::seconds` does not take is left out.
#[verifier::external_body]
pub(crate) fn humanize_past(seconds: i64) -> (text: String)
    requires
        -MAX_SPAN_SECS <= seconds <= MAX_SPAN_SECS,
    ensures
        text@ == rough_past(seconds as int),
{
    chrono_humanize::HumanTime::from(chrono::Duration::seconds(seconds)).to_text_en(
        chrono_humanize::Accuracy::Rough,
        chrono_humanize::Tense::Past,
    )
}

/// The line in which the `http` crate writes the status `code`, its number
/// and its reason, where `code` is an HTTP status at all.
pub uninterp spec fn status_phrase(code: u16) -> Option<Seq<char>>;

/// `StatusCode::from_u16` of the `http` crate, as `actix_web` hands it on,
/// and then the status's `Display`. `from_u16` takes the codes from 100 to
/// 999 and no others; the line depends on the code alone.
#[verifier::external_body]
pub(crate) fn status_line(code: u16) -> (line: Option<String>)
    ensures
        text_of(line) == status_phrase(code),
        line is Some <==> 100 <= code < 1000,
{
    match actix_web::http::StatusCode::from_u16(code) {
        Ok(status) => Some(status.to_string()),
        Err(_) => None,
    }
}

} // verus!
