//! HTTP dates, as whole seconds since the Unix epoch.

use vstd::prelude::*;

verus! {

/// The last second that an RFC 2822 date can name: the end of the year 9999.
pub const LAST_DATE: u64 = 253_402_300_799;

/// The instant that an RFC 2822 date names, in seconds since the Unix epoch,
/// or `None` where the text is no such date.
pub uninterp spec fn rfc2822_seconds(text: Seq<char>) -> Option<i64>;

/// The RFC 2822 date, in UTC, of the instant `seconds` after the Unix epoch.
pub uninterp spec fn rfc2822_text(seconds: u64) -> Seq<char>;

/// Reads an RFC 2822 date.
///
/// Trusted: calls `chrono::DateTime::parse_from_rfc2822`, moves the result to
/// UTC with `with_timezone` and reads its `timestamp`. The contract only
/// gives the outcome a name: the same text always yields the same instant.
#[verifier::external_body]
pub(crate) fn parse_rfc2822(text: &str) -> (seconds: Option<i64>)
    ensures
        seconds == rfc2822_seconds(text@),
{
    match chrono::DateTime::parse_from_rfc2822(text) {
        Ok(date) => Some(date.with_timezone(&chrono::Utc).timestamp()),
        Err(_) => None,
    }
}

/// Writes an instant as an RFC 2822 date in UTC.
///
/// Trusted: converts the instant with `chrono`'s `From<SystemTime>` for
/// `DateTime<Utc>` and calls `to_rfc2822` on it, which panics for years
/// beyond 9999: those are excluded. The contract only gives the text a name.
#[verifier::external_body]
pub(crate) fn format_rfc2822(seconds: u64) -> (text: String)
    requires
        seconds <= LAST_DATE,
    ensures
        text@ == rfc2822_text(seconds),
{
    let instant = std::time::UNIX_EPOCH + std::time::Duration::from_secs(seconds);
    chrono::DateTime::<chrono::Utc>::from(instant).to_rfc2822()
}

/// The value of an `If-Modified-Since` header for a file last modified
/// `seconds` after the Unix epoch; none for an instant that an RFC 2822 date
/// cannot name.
pub fn if_modified_since(seconds: u64) -> (header: Option<String>)
    ensures
        seconds <= LAST_DATE <==> header.is_some(),
        header.is_some() ==> header.unwrap()@ == rfc2822_text(seconds),
{
    if seconds <= LAST_DATE {
        Some(format_rfc2822(seconds))
    } else {
        None
    }
}

} // verus!
