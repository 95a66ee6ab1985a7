//! The focus command: a user declares an intent to work distraction-free
//! for a free-text duration. The text is parsed, the session is recorded in
//! the registry — overwriting any earlier session of the same owner — and
//! the caller is handed the record so it can announce the start.

use vstd::prelude::*;

use crate::parse::{parse, parsed_seconds, FocusError};
use crate::registry::SessionRegistry;
use crate::session::FocusSession;

verus! {

/// A focus request succeeds exactly when the duration text parses to a
/// strictly positive number of whole seconds and the finish instant still
/// fits the clock.
pub open spec fn focus_accepted(text: Seq<char>, now: u64) -> bool {
    parsed_seconds(text) matches Some(d) && 0 < d && now + d <= u64::MAX
}

/// Start a focus session for `owner` at instant `now`, with the requested
/// length given as free text.
///
/// On success the new session — started now, owned by `owner`, lasting the
/// parsed number of seconds — replaces whatever session the owner had, and
/// every other owner's entry is untouched. On any rejected text, and on a
/// duration so long that its finish instant overflows the clock, the
/// registry is left exactly as it was and a typed error comes back; no
/// default duration is ever used.
pub fn begin_focus(
    reg: &mut SessionRegistry,
    owner: u64,
    duration_text: &str,
    now: u64,
) -> (r: Result<FocusSession, FocusError>)
    ensures
        r is Ok <==> focus_accepted(duration_text@, now),
        r matches Ok(s) ==> {
            &&& s.owner == owner
            &&& s.started_at == now
            &&& parsed_seconds(duration_text@) == Some(s.duration_secs)
            &&& s.wf()
            &&& final(reg)@ == old(reg)@.insert(owner, s)
        },
        r matches Err(e) ==> {
            &&& e == FocusError::InvalidDuration
            &&& final(reg)@ == old(reg)@
        },
{
    match parse(duration_text) {
        Ok(secs) => {
            if secs <= u64::MAX - now {
                let session = FocusSession { owner, started_at: now, duration_secs: secs };
                reg.put(owner, session);
                Ok(session)
            } else {
                Err(FocusError::InvalidDuration)
            }
        },
        Err(e) => Err(e),
    }
}

} // verus!
