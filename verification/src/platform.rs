//! What the library takes from outside: fresh identifiers, the time of day,
//! the text of an instant and percent-decoding. The contracts in this file
//! are not proved; each says what is taken on trust.

use crate::models::pipeline::optional_text;
use vstd::prelude::*;

verus! {

/// The number of characters of an identifier in hyphenated form.
pub const ID_LENGTH: usize = 36;

/// The number of characters that every timestamp has at least: date, time to
/// the second, and offset.
pub const MIN_TIMESTAMP_LENGTH: usize = 25;

/// The text that a percent-encoded text decodes to, or `None` where the
/// decoded bytes are not UTF-8.
pub uninterp spec fn percent_decoded(encoded: Seq<char>) -> Option<Seq<char>>;

/// The RFC 3339 timestamp, in UTC, of the instant `nanos` nanoseconds after
/// the start of 1970.
pub uninterp spec fn rfc3339_of(nanos: int) -> Seq<char>;

/// A random identifier, from `uuid::Uuid::new_v4`, in the form that the
/// `Display` of `uuid::Uuid` gives it. Trusted: that form is the hyphenated
/// one, which is always 36 characters long. Of the value nothing is claimed.
/// The call panics where the random source of the system fails; no argument
/// leads there, so no `requires` can exclude it.
#[verifier::external_body]
pub(crate) fn random_id() -> (id: String)
    ensures
        id@.len() == ID_LENGTH,
{
    uuid::Uuid::new_v4().to_string()
}

/// The time of the call, from `chrono::Utc::now`, in nanoseconds since the
/// start of 1970 as `chrono::DateTime::timestamp_nanos_opt` counts them;
/// `None` where that count does not fit. Nothing is claimed of it. The call
/// panics where the clock of the system reads a time before 1970; no
/// argument leads there, so no `requires` can exclude it.
#[verifier::external_body]
pub(crate) fn clock_nanos() -> (now: Option<i64>) {
    chrono::Utc::now().timestamp_nanos_opt()
}

/// The timestamp of an instant: `chrono::DateTime::from_timestamp_nanos`,
/// which takes every count, then `chrono::DateTime::to_rfc3339`. Trusted: the
/// result depends on the argument alone, so it has a name, and it has at
/// least 25 characters.
#[verifier::external_body]
pub(crate) fn rfc3339_text(nanos: i64) -> (text: String)
    ensures
        text@ == rfc3339_of(nanos as int),
        text@.len() >= MIN_TIMESTAMP_LENGTH,
{
    chrono::DateTime::from_timestamp_nanos(nanos).to_rfc3339()
}

/// `urlencoding::decode`. Trusted: the result depends on the argument alone,
/// so it has a name, and a text without a percent sign decodes to itself.
#[verifier::external_body]
pub(crate) fn percent_decode(encoded: &str) -> (decoded: Option<String>)
    ensures
        optional_text(decoded) == percent_decoded(encoded@),
        !encoded@.contains('%') ==> optional_text(decoded) == Some(encoded@),
{
    match urlencoding::decode(encoded) {
        Ok(text) => Some(text.into_owned()),
        Err(_) => None,
    }
}

} // verus!
