//! The typing indicator: for how long it is shown, and how the time is cut
//! into periods after each of which the indicator is renewed.

use crate::campaign::{least, seconds_arg, read_seconds, TierLimits};
use crate::message::{plain, Message, MessageKind};
use crate::text::{decimal, push_decimal, texts};
use crate::users::TrustTier;
use vstd::prelude::*;

verus! {

/// Seconds after which a typing indicator has to be renewed.
pub const TYPING_PERIOD_SECS: u64 = 5;

/// Seconds of typing where the command names none.
pub const DEFAULT_TYPING_SECS: u64 = 5;

/// For how long `typing [seconds]` shows the indicator: the seconds asked
/// for, or five, and at most the configured maximum. A sender below
/// Trusted gets nothing.
pub open spec fn typing_seconds(args: Seq<Seq<char>>, tier: TrustTier, limits: TierLimits) -> Option<
    u64,
> {
    if tier.rank() >= 1 {
        let desired = match seconds_arg(args, 0) {
            Some(d) => d,
            None => DEFAULT_TYPING_SECS,
        };
        Some(least(desired as int, limits.typing_max as int) as u64)
    } else {
        None
    }
}

/// Plans `typing [seconds]`.
pub fn handle_typing(args: &Vec<String>, tier: TrustTier, limits: &TierLimits) -> (r: Option<u64>)
    ensures
        r == typing_seconds(texts(args@), tier, *limits),
{
    if !tier.at_least_trusted() {
        return None;
    }
    let desired = match read_seconds(args, 0) {
        Some(d) => d,
        None => DEFAULT_TYPING_SECS,
    };
    if desired < limits.typing_max {
        Some(desired)
    } else {
        Some(limits.typing_max)
    }
}

/// One period of typing: the indicator is set, then the task sleeps.
#[derive(Clone, Copy, Debug, PartialEq, Eq, Structural)]
pub struct TypingStep {
    /// Seconds to sleep after the indicator was set.
    pub sleep_secs: u64,
    /// Seconds left after the sleep.
    pub remaining: u64,
    /// Whether another period follows the sleep.
    pub again: bool,
}

/// The period that starts with `remaining` seconds left: a whole period
/// while more than one period is left, else the rest, after which the
/// typing ends.
pub open spec fn typing_period(remaining: u64) -> TypingStep {
    if remaining > TYPING_PERIOD_SECS {
        TypingStep {
            sleep_secs: TYPING_PERIOD_SECS,
            remaining: (remaining - TYPING_PERIOD_SECS) as u64,
            again: true,
        }
    } else {
        TypingStep { sleep_secs: remaining, remaining: 0, again: false }
    }
}

/// The period that starts with `remaining` seconds left.
pub fn typing_step(remaining: u64) -> (r: TypingStep)
    ensures
        r == typing_period(remaining),
{
    if remaining > TYPING_PERIOD_SECS {
        TypingStep {
            sleep_secs: TYPING_PERIOD_SECS,
            remaining: remaining - TYPING_PERIOD_SECS,
            again: true,
        }
    } else {
        TypingStep { sleep_secs: remaining, remaining: 0, again: false }
    }
}

/// The seconds slept in all the periods from `remaining` seconds on.
pub open spec fn total_sleep(remaining: u64) -> int
    decreases remaining,
{
    let p = typing_period(remaining);
    if p.again {
        p.sleep_secs + total_sleep(p.remaining)
    } else {
        p.sleep_secs as int
    }
}

/// The periods add up to the time that was granted, and none is longer
/// than the renewal period.
pub proof fn lemma_typing_total(remaining: u64)
    ensures
        total_sleep(remaining) == remaining,
        typing_period(remaining).sleep_secs <= TYPING_PERIOD_SECS,
    decreases remaining,
{
    if remaining > TYPING_PERIOD_SECS {
        lemma_typing_total((remaining - TYPING_PERIOD_SECS) as u64);
    }
}

/// The notice that closes a typing of `duration` seconds.
pub fn typing_done_notice(duration: u64) -> (m: Message)
    ensures
        m@ == plain(
            MessageKind::Notice,
            "I was just typing for "@ + decimal(duration as nat) + " seconds!"@,
        ),
{
    let mut s = String::from_str("I was just typing for ");
    push_decimal(&mut s, duration);
    s.append(" seconds!");
    Message::notice_plain(s)
}

/// What follows an attempt to set the indicator with `remaining` seconds
/// left: the period to sleep through where it was set, and nothing where
/// the attempt failed. A failure ends the typing at once: the indicator is
/// not set again and not cleared, and no notice follows.
pub fn typing_after(set_ok: bool, remaining: u64) -> (r: Option<TypingStep>)
    ensures
        r == if set_ok {
            Some(typing_period(remaining))
        } else {
            None
        },
{
    if set_ok {
        Some(typing_step(remaining))
    } else {
        None
    }
}

/// What follows the attempt to clear the indicator after `duration`
/// seconds of typing: the closing notice where it was cleared, and nothing
/// where the attempt failed.
pub fn typing_closing(cleared_ok: bool, duration: u64) -> (r: Option<Message>)
    ensures
        match r {
            Some(m) => cleared_ok && m@ == plain(
                MessageKind::Notice,
                "I was just typing for "@ + decimal(duration as nat) + " seconds!"@,
            ),
            None => !cleared_ok,
        },
{
    if cleared_ok {
        Some(typing_done_notice(duration))
    } else {
        None
    }
}

} // verus!
