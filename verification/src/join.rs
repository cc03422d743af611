//! The join-retry state machine: after an invitation from a trusted sender
//! the room is joined, and a failed join is tried again after a delay that
//! doubles each time, until the delay would pass a ceiling.

use crate::users::{Identity, TrustTier};
use vstd::arithmetic::power2::{lemma2_to64, lemma_pow2_unfold, pow2};
use vstd::prelude::*;

verus! {

/// Delay, in seconds, before the first retry of a failed join.
pub const INITIAL_DELAY_SECS: u64 = 2;

/// A retry is abandoned once the next delay would exceed this many seconds.
pub const MAX_DELAY_SECS: u64 = 3600;

/// Where the machine stands.
#[derive(Clone, Copy, Debug, PartialEq, Eq, Structural)]
pub enum JoinState {
    /// A join is under way; `delay` is how long to wait if it fails.
    Attempting { delay: u64 },
    /// The last join failed and the machine sleeps for `delay` seconds.
    Backoff { delay: u64 },
    /// The room was joined.
    Joined,
    /// The delay passed the ceiling and the invitation was given up.
    Abandoned,
}

/// What the driver reports to the machine.
#[derive(Clone, Copy, Debug, PartialEq, Eq, Structural)]
pub enum JoinEvent {
    /// The join that was under way failed.
    Failed,
    /// The join that was under way succeeded.
    Succeeded,
    /// The sleep that was asked for is over.
    Slept,
}

/// What the machine asks its driver to do.
#[derive(Clone, Copy, Debug, PartialEq, Eq, Structural)]
pub enum JoinAction {
    /// Try to join the room.
    Join,
    /// Sleep for this many seconds.
    Sleep(u64),
    /// Nothing is left to do.
    Stop,
}

/// The state that follows `s` on event `e`. An event that the state does
/// not wait for leaves it unchanged.
pub open spec fn next_state(s: JoinState, e: JoinEvent) -> JoinState {
    match (s, e) {
        (JoinState::Attempting { delay }, JoinEvent::Failed) => JoinState::Backoff { delay },
        (JoinState::Attempting { .. }, JoinEvent::Succeeded) => JoinState::Joined,
        (JoinState::Backoff { delay }, JoinEvent::Slept) => if 2 * delay > MAX_DELAY_SECS {
            JoinState::Abandoned
        } else {
            JoinState::Attempting { delay: (2 * delay) as u64 }
        },
        _ => s,
    }
}

/// What a state asks its driver to do.
pub open spec fn action_of(s: JoinState) -> JoinAction {
    match s {
        JoinState::Attempting { .. } => JoinAction::Join,
        JoinState::Backoff { delay } => JoinAction::Sleep(delay),
        JoinState::Joined => JoinAction::Stop,
        JoinState::Abandoned => JoinAction::Stop,
    }
}

/// Whether a state is final.
pub open spec fn is_terminal(s: JoinState) -> bool {
    s == JoinState::Joined || s == JoinState::Abandoned
}

/// The state in which an invitation is taken up, if it is: the invitation
/// must be addressed to the bot itself and come from a sender who is not
/// Anonymous.
pub open spec fn initial_state(invited_self: bool, inviter: TrustTier) -> Option<JoinState> {
    if invited_self && inviter != TrustTier::Anonymous {
        Some(JoinState::Attempting { delay: INITIAL_DELAY_SECS })
    } else {
        None
    }
}

/// Decides whether an invitation starts a join.
pub fn handle_invites(invited_self: bool, inviter: TrustTier) -> (r: Option<JoinState>)
    ensures
        r == initial_state(invited_self, inviter),
{
    if invited_self && inviter.at_least_trusted() {
        Some(JoinState::Attempting { delay: INITIAL_DELAY_SECS })
    } else {
        None
    }
}

/// What the driver is to do in a state.
pub fn action(s: JoinState) -> (a: JoinAction)
    ensures
        a == action_of(s),
{
    match s {
        JoinState::Attempting { .. } => JoinAction::Join,
        JoinState::Backoff { delay } => JoinAction::Sleep(delay),
        JoinState::Joined => JoinAction::Stop,
        JoinState::Abandoned => JoinAction::Stop,
    }
}

/// Moves the machine on by one event and says what to do next.
pub fn step(s: JoinState, e: JoinEvent) -> (r: (JoinState, JoinAction))
    ensures
        r.0 == next_state(s, e),
        r.1 == action_of(r.0),
{
    let next = match s {
        JoinState::Attempting { delay } => match e {
            JoinEvent::Failed => JoinState::Backoff { delay },
            JoinEvent::Succeeded => JoinState::Joined,
            JoinEvent::Slept => s,
        },
        JoinState::Backoff { delay } => match e {
            JoinEvent::Slept => if delay > MAX_DELAY_SECS / 2 {
                JoinState::Abandoned
            } else {
                JoinState::Attempting { delay: 2 * delay }
            },
            _ => s,
        },
        _ => s,
    };
    (next, action(next))
}

/// One invitation that is being taken up.
pub struct JoinAttempt {
    pub room_id: String,
    pub inviting_sender: Identity,
    /// Where the machine stands; the state holds the current delay.
    pub state: JoinState,
    /// The number of joins that were tried and have ended.
    pub attempts_so_far: u32,
}

/// Whether an event ends a join that was under way.
pub open spec fn ends_a_join(s: JoinState, e: JoinEvent) -> bool {
    s is Attempting && (e == JoinEvent::Failed || e == JoinEvent::Succeeded)
}

/// The number of ended joins after one more event; the count stops at the
/// largest number that it can hold.
pub open spec fn attempts_after(attempts: u32, s: JoinState, e: JoinEvent) -> u32 {
    if ends_a_join(s, e) && attempts < u32::MAX {
        (attempts + 1) as u32
    } else {
        attempts
    }
}

impl JoinAttempt {
    /// Takes an invitation up, if it is addressed to the bot itself and
    /// comes from a sender who is not Anonymous.
    pub fn begin(room_id: String, inviting_sender: Identity, invited_self: bool, tier: TrustTier) -> (r:
        Option<JoinAttempt>)
        ensures
            match r {
                Some(a) => initial_state(invited_self, tier) == Some(a.state) && a.room_id
                    == room_id && a.inviting_sender == inviting_sender && a.attempts_so_far == 0,
                None => initial_state(invited_self, tier) is None,
            },
    {
        match handle_invites(invited_self, tier) {
            Some(state) => Some(JoinAttempt { room_id, inviting_sender, state, attempts_so_far: 0 }),
            None => None,
        }
    }

    /// Moves the attempt on by one event and says what to do next. Room
    /// and sender stay as they are.
    pub fn advance(&mut self, e: JoinEvent) -> (a: JoinAction)
        ensures
            final(self).state == next_state(old(self).state, e),
            final(self).attempts_so_far == attempts_after(
                old(self).attempts_so_far,
                old(self).state,
                e,
            ),
            final(self).room_id == old(self).room_id,
            final(self).inviting_sender == old(self).inviting_sender,
            a == action_of(final(self).state),
    {
        let ended = match self.state {
            JoinState::Attempting { .. } => match e {
                JoinEvent::Slept => false,
                _ => true,
            },
            _ => false,
        };
        if ended && self.attempts_so_far < u32::MAX {
            self.attempts_so_far = self.attempts_so_far + 1;
        }
        let r = step(self.state, e);
        self.state = r.0;
        r.1
    }
}

/// The state after `k` joins in a row have failed and each was slept on.
pub open spec fn after_failures(k: nat) -> JoinState
    decreases k,
{
    if k == 0 {
        JoinState::Attempting { delay: INITIAL_DELAY_SECS }
    } else {
        next_state(next_state(after_failures((k - 1) as nat), JoinEvent::Failed), JoinEvent::Slept)
    }
}

/// While every join fails, the sleeps are 2, 4, 8, ... seconds: the sleep
/// after failure number `k` (counted from 0) lasts `2^(k+1)` seconds. After
/// the sleep of 2048 seconds the next delay would pass the ceiling, and the
/// machine is Abandoned from then on.
pub proof fn lemma_backoff_doubles(k: nat)
    ensures
        k <= 10 ==> after_failures(k) == (JoinState::Attempting { delay: pow2(k + 1) as u64 }),
        k <= 10 ==> action_of(next_state(after_failures(k), JoinEvent::Failed)) == JoinAction::Sleep(
            pow2(k + 1) as u64,
        ),
        k <= 10 ==> pow2(k + 1) <= 2048,
        k >= 11 ==> after_failures(k) == JoinState::Abandoned,
    decreases k,
{
    lemma2_to64();
    if k > 0 {
        lemma_backoff_doubles((k - 1) as nat);
        lemma_pow2_unfold(k + 1);
        if k <= 10 {
            assert(pow2(k) <= 1024) by {
                lemma_pow2_bound(k);
            }
        } else if k == 11 {
            assert(pow2(11) == 2048);
        }
    }
}

proof fn lemma_pow2_bound(k: nat)
    requires
        1 <= k <= 10,
    ensures
        pow2(k) <= 1024,
    decreases k,
{
    lemma2_to64();
    if k > 1 {
        lemma_pow2_bound((k - 1) as nat);
        lemma_pow2_unfold(k);
    }
}

/// A final state stays as it is, whatever happens.
pub proof fn lemma_terminal_is_final(s: JoinState, e: JoinEvent)
    requires
        is_terminal(s),
    ensures
        next_state(s, e) == s,
        action_of(s) == JoinAction::Stop,
{
}

/// The delay never passes the ceiling: from a state whose delay is within
/// it, every event leads to such a state.
pub proof fn lemma_delay_stays_bounded(s: JoinState, e: JoinEvent)
    requires
        delay_bounded(s),
    ensures
        delay_bounded(next_state(s, e)),
{
}

/// Whether the delay of a state is within the ceiling.
pub open spec fn delay_bounded(s: JoinState) -> bool {
    match s {
        JoinState::Attempting { delay } => delay <= MAX_DELAY_SECS,
        JoinState::Backoff { delay } => delay <= MAX_DELAY_SECS,
        _ => true,
    }
}

} // verus!
