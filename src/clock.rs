use vstd::prelude::*;

verus! {

#[verifier::external_type_specification]
#[verifier::external_body]
pub struct ExFormatError(time::error::Format);

/// Relies on `chrono::Utc::now` and `chrono::Timelike::hour`, which is
/// documented to return the hour number from 0 to 23.
#[verifier::external_body]
pub(crate) fn current_utc_hour() -> (r: u32)
    ensures
        r < 24,
{
    chrono::Timelike::hour(&chrono::Utc::now())
}

/// Relies on `time::OffsetDateTime::now_utc`, rendered by
/// `time::OffsetDateTime::format` with the RFC 3339 description: the current
/// time as text, or the error that formatting reported.
#[verifier::external_body]
pub(crate) fn utc_timestamp() -> (r: Result<String, time::error::Format>) {
    time::OffsetDateTime::now_utc().format(&time::format_description::well_known::Rfc3339)
}

/// The current time in RFC 3339 form; empty when it cannot be formatted.
pub fn timestamp_or_empty() -> (r: String) {
    match utc_timestamp() {
        Ok(text) => text,
        Err(_) => String::new(),
    }
}

} // verus!
