//! Free-text duration parsing.
//!
//! Users ask for a focus window in natural language ("25 minutes", "1h30m").
//! The heavy lifting is done by the `parse_duration` crate; this module gates
//! its answer so that callers only ever see a strictly positive whole number
//! of seconds, or a typed error. Empty or nonsensical text is rejected; no
//! input falls back to a default duration.

use vstd::prelude::*;

verus! {

/// Typed errors a focus command can produce.
#[derive(Clone, Copy, PartialEq, Eq, Structural, Debug)]
pub enum FocusError {
    /// The duration text could not be read as a positive duration.
    InvalidDuration,
}

/// The whole seconds of the duration that `parse_duration::parse` reads out
/// of `text`, or `None` where that parser rejects the text. The parser's
/// answer depends on the text alone.
pub uninterp spec fn parsed_seconds(text: Seq<char>) -> Option<u64>;

/// Relies on `parse_duration::parse`: a pure text parser whose result depends
/// on its input alone, truncated here to whole seconds. Its grammar never
/// matches an empty string (it needs at least one digit), so empty text is
/// always rejected.
#[verifier::external_body]
fn raw_parse_seconds(text: &str) -> (r: Option<u64>)
    ensures
        r == parsed_seconds(text@),
        text@.len() == 0 ==> r is None,
{
    match parse_duration::parse(text) {
        Ok(d) => Some(d.as_secs()),
        Err(_) => None,
    }
}

/// Turn free-text input into a concrete wait interval in whole seconds.
///
/// Succeeds exactly when the underlying parser reads a duration of at least
/// one whole second out of the text; the result is then that number of
/// seconds, and strictly positive. Everything else — empty text, garbage,
/// and durations under one second — is rejected with `InvalidDuration`,
/// never a default value. No side effects.
pub fn parse(text: &str) -> (r: Result<u64, FocusError>)
    ensures
        r matches Ok(d) <==> (parsed_seconds(text@) matches Some(p) && p > 0),
        r matches Ok(d) ==> parsed_seconds(text@) == Some(d) && d > 0,
        r matches Err(e) ==> e == FocusError::InvalidDuration,
        text@.len() == 0 ==> r == Result::<u64, FocusError>::Err(FocusError::InvalidDuration),
{
    match raw_parse_seconds(text) {
        Some(secs) => {
            if secs > 0 {
                Ok(secs)
            } else {
                Err(FocusError::InvalidDuration)
            }
        },
        None => Err(FocusError::InvalidDuration),
    }
}

} // verus!
