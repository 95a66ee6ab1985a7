//! The enforcement pipeline, run once per inbound message.
//!
//! Two independent checks, both of which may fire for the same message:
//! a mention check — does the body contain the decimal identifier of any
//! user present in the registry, active or expired — and a self-speaking
//! check — is the author's own session still active. Either violation is
//! remediated against the message author: the author is removed and an
//! announcement or reply is prepared. The checks only read the registry;
//! the side effects belong to the calling layer.

use vstd::prelude::*;

use crate::announce::{
    kick_announcement, kick_announcement_text, mention_reply, mention_reply_text,
};
use crate::registry::{snapshot_of, SessionRegistry};
use crate::session::FocusSession;
use crate::text::{chars_of, contains_seq, contains_seq_exec, decimal_digits, decimal_digits_exec};

verus! {

/// The message body contains the decimal identifier of `user`.
pub open spec fn mentions(content: Seq<char>, user: u64) -> bool {
    contains_seq(content, decimal_digits(user))
}

/// Some user present in the registry — active or expired, the check is
/// existence in the registry, not activity — is mentioned in the body.
pub open spec fn mention_violation_spec(m: Map<u64, FocusSession>, content: Seq<char>) -> bool {
    exists|u: u64| #[trigger] m.contains_key(u) && mentions(content, u)
}

/// The author has a session in the registry and it is still active.
pub open spec fn self_violation_spec(m: Map<u64, FocusSession>, author: u64, now: u64) -> bool {
    m.contains_key(author) && m[author].is_active_spec(now)
}

/// What the pipeline found for one inbound message.
#[derive(Clone, Copy, PartialEq, Eq, Structural, Debug)]
pub struct Enforcement {
    /// The body mentioned the identifier of a registered user.
    pub mention_violation: bool,
    /// The author spoke while their own session was still active.
    pub self_violation: bool,
}

/// Run both checks for one inbound message: `author` wrote `content` at
/// instant `now`. Reads the registry; mutates nothing.
pub fn inspect_message(
    reg: &SessionRegistry,
    author: u64,
    content: &str,
    now: u64,
) -> (e: Enforcement)
    ensures
        e.mention_violation == mention_violation_spec(reg@, content@),
        e.self_violation == self_violation_spec(reg@, author, now),
{
    let body = chars_of(content);
    let entries = reg.list();
    let ghost m = reg@;
    let n = entries.len();
    let mut found = false;
    let mut idx: usize = 0;
    while idx < n
        invariant
            idx <= n,
            n == entries@.len(),
            body@ == content@,
            snapshot_of(m, entries@),
            found == exists|j: int|
                0 <= j < idx && #[trigger] mentions(content@, entries@[j].0),
        decreases n - idx,
    {
        let digits = decimal_digits_exec(entries[idx].0);
        if contains_seq_exec(&body, &digits) {
            proof {
                assert(mentions(content@, entries@[idx as int].0));
            }
            found = true;
        }
        proof {
            if !found {
                assert forall|j: int|
                    0 <= j < idx + 1 implies !(#[trigger] mentions(content@, entries@[j].0)) by {
                    if j < idx {
                        assert(!mentions(content@, entries@[j].0));
                    }
                }
            }
        }
        idx = idx + 1;
    }
    proof {
        if found {
            let j = choose|j: int| 0 <= j < n && #[trigger] mentions(content@, entries@[j].0);
            assert(m.contains_pair(entries@[j].0, entries@[j].1));
            assert(m.contains_key(entries@[j].0) && mentions(content@, entries@[j].0));
        } else {
            assert forall|u: u64| #[trigger] m.contains_key(u) implies !mentions(content@, u) by {
                let i = choose|i: int| 0 <= i < entries@.len() && (#[trigger] entries@[i]).0 == u;
                assert(!mentions(content@, entries@[i].0));
            }
        }
    }
    let self_violation = match reg.get(author) {
        Some(session) => session.is_active_violation(now),
        None => false,
    };
    Enforcement { mention_violation: found, self_violation }
}

/// What to do about the violations found for one message: whether to remove
/// the author, the inline reply to send, and the announcement to post to the
/// notification channel. `author_name` is the display name of the message
/// author.
pub struct RemediationPlan {
    /// Remove the message author from the server.
    pub kick_author: bool,
    /// Inline reply to the triggering message, if any is owed.
    pub reply: Option<String>,
    /// Announcement for the fixed notification channel, if any is owed.
    pub announcement: Option<String>,
}

/// Decide the remediation for one message's findings. The author is removed
/// exactly when either check fired; a mention violation earns the fixed
/// warning reply, and a self-speaking violation earns the kick announcement
/// naming the author.
pub fn plan_remediation(e: Enforcement, author_name: &str) -> (p: RemediationPlan)
    ensures
        p.kick_author == (e.mention_violation || e.self_violation),
        (p.reply is Some) == e.mention_violation,
        p.reply matches Some(s) ==> s@ == mention_reply_text(),
        (p.announcement is Some) == e.self_violation,
        p.announcement matches Some(s) ==> s@ == kick_announcement_text(author_name@),
{
    let reply = if e.mention_violation {
        Some(mention_reply())
    } else {
        None
    };
    let announcement = if e.self_violation {
        Some(kick_announcement(author_name))
    } else {
        None
    };
    RemediationPlan {
        kick_author: e.mention_violation || e.self_violation,
        reply,
        announcement,
    }
}

} // verus!
