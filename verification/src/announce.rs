//! Wording of the announcements the bot posts: the session-start notice and
//! the two removal templates. Each builder is proved to produce exactly the
//! advertised text, so the calling layer only has to deliver it.

use vstd::prelude::*;
use vstd::string::StringExecFns;

use crate::text::{decimal_digits, decimal_digits_exec, digit_char};

verus! {

/// The fixed warning sent as a reply when someone pings a focused user.
pub open spec fn mention_reply_text() -> Seq<char> {
    "DO NOT PING FOCUSED USERS"@
}

/// The announcement posted when a focused user spoke during their session.
pub open spec fn kick_announcement_text(name: Seq<char>) -> Seq<char> {
    name + " was kicked for speaking when they were meant to focus"@
}

/// The announcement posted when a session starts: who focuses on what, and
/// the epoch second at which the session will finish, in the chat platform's
/// relative-timestamp markup.
pub open spec fn start_announcement_text(
    name: Seq<char>,
    task: Seq<char>,
    finish_at: u64,
) -> Seq<char> {
    name + " is focusing on "@ + task + " and will finish at <t:"@ + decimal_digits(finish_at)
        + ":R>"@
}

/// The decimal digit `d`, as a one-character string slice.
fn digit_str(d: u64) -> (r: &'static str)
    requires
        d < 10,
    ensures
        r@ =~= seq![digit_char(d as int)],
{
    proof {
        reveal_strlit("0");
        reveal_strlit("1");
        reveal_strlit("2");
        reveal_strlit("3");
        reveal_strlit("4");
        reveal_strlit("5");
        reveal_strlit("6");
        reveal_strlit("7");
        reveal_strlit("8");
        reveal_strlit("9");
    }
    match d {
        0 => "0",
        1 => "1",
        2 => "2",
        3 => "3",
        4 => "4",
        5 => "5",
        6 => "6",
        7 => "7",
        8 => "8",
        _ => "9",
    }
}

/// Append the decimal rendering of `n` to `out`.
fn push_decimal_str(n: u64, out: &mut String)
    ensures
        final(out)@ == old(out)@ + decimal_digits(n),
    decreases n,
{
    if n < 10 {
        out.append(digit_str(n));
        proof {
            assert(out@ =~= old(out)@ + decimal_digits(n));
        }
    } else {
        push_decimal_str(n / 10, out);
        out.append(digit_str(n % 10));
        proof {
            assert(out@ =~= old(out)@ + decimal_digits(n));
        }
    }
}

/// The decimal rendering of `n` as a string.
pub fn decimal_string(n: u64) -> (r: String)
    ensures
        r@ == decimal_digits(n),
{
    let mut out = String::new();
    push_decimal_str(n, &mut out);
    proof {
        assert(out@ =~= decimal_digits(n));
    }
    out
}

/// The fixed warning replied to whoever pinged a focused user.
pub fn mention_reply() -> (r: String)
    ensures
        r@ == mention_reply_text(),
{
    String::from_str("DO NOT PING FOCUSED USERS")
}

/// The announcement for removing `name` after speaking while focusing.
pub fn kick_announcement(name: &str) -> (r: String)
    ensures
        r@ == kick_announcement_text(name@),
{
    let mut out = String::from_str(name);
    out.append(" was kicked for speaking when they were meant to focus");
    out
}

/// The session-start announcement for `name`, their task, and the finish
/// instant in epoch seconds.
pub fn start_announcement(name: &str, task: &str, finish_at: u64) -> (r: String)
    ensures
        r@ == start_announcement_text(name@, task@, finish_at),
{
    let mut out = String::from_str(name);
    out.append(" is focusing on ");
    out.append(task);
    out.append(" and will finish at <t:");
    let digits = decimal_string(finish_at);
    out.append(digits.as_str());
    out.append(":R>");
    proof {
        assert(out@ =~= start_announcement_text(name@, task@, finish_at));
    }
    out
}

} // verus!
