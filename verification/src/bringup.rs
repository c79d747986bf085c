//! The connectivity bring-up state machine: it drives the device from
//! "radio powered, not associated" to "network stack fully configured",
//! surfacing a single readiness signal downstream.
//!
//! The machine only decides; the shell around it performs each returned
//! action (a join attempt, a timed poll, the final stack wait) and feeds the
//! observed outcome back in as the next event. Association failures are
//! retried immediately and indefinitely; every other wait is polled with no
//! timeout. No transition ever leads back to an earlier state.

use vstd::prelude::*;
use crate::config::ADDRESS_POLL_INTERVAL_MS;
use crate::config::LINK_POLL_INTERVAL_MS;
use crate::config::RetryPolicy;

verus! {

/// Where the bring-up sequence stands. States only move forward.
#[derive(Clone, Copy, PartialEq, Eq, Structural, Debug)]
pub enum BringupState {
    /// The radio is powered and initialized, not yet associating.
    RadioReady,
    /// A join attempt is in flight (or owed, after a failure).
    Joining,
    /// Association succeeded.
    Joined,
    /// Waiting for address configuration to complete.
    AwaitingAddress,
    /// An address is configured.
    AddressUp,
    /// Waiting for the physical link to come up.
    AwaitingLink,
    /// The link is up.
    LinkUp,
    /// The stack reported itself fully configured; bring-up is done.
    StackReady,
}

/// What the shell observed, handed to [`ConnectivityBringupManager::step`].
#[derive(Clone, Copy, PartialEq, Eq, Structural, Debug)]
pub enum BringupEvent {
    /// Sequential control continues; nothing was awaited.
    Proceed,
    /// A join attempt finished; `status` is the radio's reason code on failure.
    JoinResult { ok: bool, status: u32 },
    /// One poll of the address-configuration condition returned.
    AddressPoll { configured: bool },
    /// One poll of the link-up condition returned.
    LinkPoll { up: bool },
    /// The stack's own readiness wait completed.
    StackConfigured,
}

/// What the shell must do next.
#[derive(Clone, Copy, PartialEq, Eq, Structural, Debug)]
pub enum BringupAction {
    /// Feed [`BringupEvent::Proceed`] back in; no outside work is owed.
    Advance,
    /// Attempt `radio.join(ssid, secret)` and report the outcome.
    AttemptJoin,
    /// Poll the address-configuration condition, pausing `delay_ms` between
    /// polls, and report what it observed.
    PollAddress { delay_ms: u64 },
    /// Poll the link-up condition, pausing `delay_ms` between polls, and
    /// report what it observed.
    PollLink { delay_ms: u64 },
    /// Block on the stack's own readiness wait, then report it.
    AwaitStackConfigured,
    /// Bring-up is complete: hand the ready stack to the fetch loop.
    HandOff,
}

/// Position of a state in the forward-only bring-up order.
pub open spec fn stage(s: BringupState) -> int {
    match s {
        BringupState::RadioReady => 0,
        BringupState::Joining => 1,
        BringupState::Joined => 2,
        BringupState::AwaitingAddress => 3,
        BringupState::AddressUp => 4,
        BringupState::AwaitingLink => 5,
        BringupState::LinkUp => 6,
        BringupState::StackReady => 7,
    }
}

/// The transition function. An event that does not belong to the current
/// state changes nothing.
pub open spec fn next_state(s: BringupState, e: BringupEvent) -> BringupState {
    match (s, e) {
        (BringupState::RadioReady, BringupEvent::Proceed) => BringupState::Joining,
        (BringupState::Joining, BringupEvent::JoinResult { ok, .. }) => if ok {
            BringupState::Joined
        } else {
            BringupState::Joining
        },
        (BringupState::Joined, BringupEvent::Proceed) => BringupState::AwaitingAddress,
        (BringupState::AwaitingAddress, BringupEvent::AddressPoll { configured }) => if configured {
            BringupState::AddressUp
        } else {
            BringupState::AwaitingAddress
        },
        (BringupState::AddressUp, BringupEvent::Proceed) => BringupState::AwaitingLink,
        (BringupState::AwaitingLink, BringupEvent::LinkPoll { up }) => if up {
            BringupState::LinkUp
        } else {
            BringupState::AwaitingLink
        },
        (BringupState::LinkUp, BringupEvent::StackConfigured) => BringupState::StackReady,
        (s2, _) => s2,
    }
}

/// The action the shell owes in a given state.
pub open spec fn pending_action(s: BringupState) -> BringupAction {
    match s {
        BringupState::RadioReady => BringupAction::Advance,
        BringupState::Joining => BringupAction::AttemptJoin,
        BringupState::Joined => BringupAction::Advance,
        BringupState::AwaitingAddress => BringupAction::PollAddress {
            delay_ms: ADDRESS_POLL_INTERVAL_MS,
        },
        BringupState::AddressUp => BringupAction::Advance,
        BringupState::AwaitingLink => BringupAction::PollLink { delay_ms: LINK_POLL_INTERVAL_MS },
        BringupState::LinkUp => BringupAction::AwaitStackConfigured,
        BringupState::StackReady => BringupAction::HandOff,
    }
}

/// The state after folding a whole event sequence into `s0`.
pub open spec fn run(s0: BringupState, events: Seq<BringupEvent>) -> BringupState
    decreases events.len(),
{
    if events.len() == 0 {
        s0
    } else {
        run(next_state(s0, events[0]), events.subrange(1, events.len() as int))
    }
}

/// A join attempt that failed.
pub open spec fn is_join_failure(e: BringupEvent) -> bool {
    e matches BringupEvent::JoinResult { ok, .. } && !ok
}

/// A join attempt that succeeded.
pub open spec fn is_join_success(e: BringupEvent) -> bool {
    e matches BringupEvent::JoinResult { ok, .. } && ok
}

/// A poll that observed address configuration complete.
pub open spec fn is_address_confirmation(e: BringupEvent) -> bool {
    e matches BringupEvent::AddressPoll { configured } && configured
}

/// A poll that observed the link up.
pub open spec fn is_link_confirmation(e: BringupEvent) -> bool {
    e matches BringupEvent::LinkPoll { up } && up
}

/// Drives the bring-up sequence. Owns its [`BringupState`] exclusively: no
/// other component observes intermediate states, only the final hand-off.
pub struct ConnectivityBringupManager {
    state: BringupState,
}

impl ConnectivityBringupManager {
    /// The state the manager currently holds.
    pub closed spec fn current(&self) -> BringupState {
        self.state
    }

    /// A fresh manager: the radio is ready, nothing has been attempted.
    pub fn new() -> (r: ConnectivityBringupManager)
        ensures
            r.current() == BringupState::RadioReady,
    {
        ConnectivityBringupManager { state: BringupState::RadioReady }
    }

    /// The state, for the shell's reporting.
    pub fn state(&self) -> (s: BringupState)
        ensures
            s == self.current(),
    {
        self.state
    }

    /// Association failures are retried immediately and indefinitely: the
    /// manager never gives up on joining.
    pub fn retry_policy(&self) -> (p: RetryPolicy)
        ensures
            p == RetryPolicy::RetryForever,
    {
        RetryPolicy::RetryForever
    }

    /// Folds one observed event in and returns the next owed action.
    pub fn step(&mut self, e: BringupEvent) -> (a: BringupAction)
        ensures
            final(self).current() == next_state(old(self).current(), e),
            a == pending_action(final(self).current()),
            stage(old(self).current()) <= stage(final(self).current()),
    {
        let s = self.state;
        let ns = match (s, e) {
            (BringupState::RadioReady, BringupEvent::Proceed) => BringupState::Joining,
            (BringupState::Joining, BringupEvent::JoinResult { ok, .. }) => if ok {
                BringupState::Joined
            } else {
                BringupState::Joining
            },
            (BringupState::Joined, BringupEvent::Proceed) => BringupState::AwaitingAddress,
            (BringupState::AwaitingAddress, BringupEvent::AddressPoll { configured }) => if configured {
                BringupState::AddressUp
            } else {
                BringupState::AwaitingAddress
            },
            (BringupState::AddressUp, BringupEvent::Proceed) => BringupState::AwaitingLink,
            (BringupState::AwaitingLink, BringupEvent::LinkPoll { up }) => if up {
                BringupState::LinkUp
            } else {
                BringupState::AwaitingLink
            },
            (BringupState::LinkUp, BringupEvent::StackConfigured) => BringupState::StackReady,
            (s2, _) => s2,
        };
        self.state = ns;
        match ns {
            BringupState::RadioReady => BringupAction::Advance,
            BringupState::Joining => BringupAction::AttemptJoin,
            BringupState::Joined => BringupAction::Advance,
            BringupState::AwaitingAddress => BringupAction::PollAddress {
                delay_ms: ADDRESS_POLL_INTERVAL_MS,
            },
            BringupState::AddressUp => BringupAction::Advance,
            BringupState::AwaitingLink => BringupAction::PollLink {
                delay_ms: LINK_POLL_INTERVAL_MS,
            },
            BringupState::LinkUp => BringupAction::AwaitStackConfigured,
            BringupState::StackReady => BringupAction::HandOff,
        }
    }
}

/// Law: no transition leads back to an earlier state.
pub proof fn lemma_transitions_forward(s: BringupState, e: BringupEvent)
    ensures
        stage(s) <= stage(next_state(s, e)),
{
}

/// Law: over any event sequence the bring-up only moves forward.
pub proof fn lemma_run_forward(s0: BringupState, events: Seq<BringupEvent>)
    ensures
        stage(s0) <= stage(run(s0, events)),
    decreases events.len(),
{
    if events.len() > 0 {
        lemma_transitions_forward(s0, events[0]);
        lemma_run_forward(next_state(s0, events[0]), events.subrange(1, events.len() as int));
    }
}

/// Law: for any number of consecutive failed join attempts, the manager
/// stays in `Joining`, never aborts, and keeps owing a new join attempt.
pub proof fn lemma_join_retries_forever(events: Seq<BringupEvent>)
    requires
        forall|i: int| 0 <= i < events.len() ==> is_join_failure(events[i]),
    ensures
        run(BringupState::Joining, events) == BringupState::Joining,
        pending_action(run(BringupState::Joining, events)) == BringupAction::AttemptJoin,
    decreases events.len(),
{
    if events.len() > 0 {
        assert(is_join_failure(events[0]));
        let rest = events.subrange(1, events.len() as int);
        assert(forall|i: int| 0 <= i < rest.len() ==> is_join_failure(#[trigger] rest[i]));
        lemma_join_retries_forever(rest);
    }
}

/// `run` distributes over appending one event at the end.
pub proof fn lemma_run_push(s0: BringupState, events: Seq<BringupEvent>, e: BringupEvent)
    ensures
        run(s0, events.push(e)) == next_state(run(s0, events), e),
    decreases events.len(),
{
    let evs = events.push(e);
    if events.len() == 0 {
        assert(evs.len() == 1);
        assert(evs[0] == e);
        assert(evs.subrange(1, 1) =~= Seq::<BringupEvent>::empty());
        assert(run(s0, evs) == run(next_state(s0, e), evs.subrange(1, 1)));
        assert(run(s0, events) == s0);
    } else {
        let rest = events.subrange(1, events.len() as int);
        assert(evs[0] == events[0]);
        assert(evs.subrange(1, events.len() as int + 1) =~= rest.push(e));
        lemma_run_push(next_state(s0, events[0]), rest, e);
        assert(run(s0, evs) == run(next_state(s0, events[0]), evs.subrange(1, evs.len() as int)));
        assert(run(s0, events) == run(next_state(s0, events[0]), rest));
    }
}

/// Law: however many join failures came before, the first successful join
/// attempt moves the manager to `Joined`.
pub proof fn lemma_first_success_joins(failures: Seq<BringupEvent>, e: BringupEvent)
    requires
        forall|i: int| 0 <= i < failures.len() ==> is_join_failure(failures[i]),
        is_join_success(e),
    ensures
        run(BringupState::Joining, failures.push(e)) == BringupState::Joined,
{
    lemma_join_retries_forever(failures);
    lemma_run_push(BringupState::Joining, failures, e);
}

/// Law: before any successful join attempt the bring-up never passes
/// `Joining`; in particular no address poll, link poll, stack wait or
/// hand-off is ever owed.
pub proof fn lemma_no_polling_before_join(s0: BringupState, events: Seq<BringupEvent>)
    requires
        stage(s0) <= stage(BringupState::Joining),
        forall|i: int| 0 <= i < events.len() ==> !is_join_success(events[i]),
    ensures
        stage(run(s0, events)) <= stage(BringupState::Joining),
        pending_action(run(s0, events)) == BringupAction::Advance || pending_action(
            run(s0, events),
        ) == BringupAction::AttemptJoin,
    decreases events.len(),
{
    if events.len() > 0 {
        assert(!is_join_success(events[0]));
        let rest = events.subrange(1, events.len() as int);
        assert(forall|i: int| 0 <= i < rest.len() ==> !is_join_success(#[trigger] rest[i]));
        lemma_no_polling_before_join(next_state(s0, events[0]), rest);
    }
}

/// Law: before a poll has observed the address configured, the bring-up
/// never passes `AwaitingAddress`; in particular no link poll, stack wait or
/// hand-off is ever owed.
pub proof fn lemma_no_link_poll_before_address(s0: BringupState, events: Seq<BringupEvent>)
    requires
        stage(s0) <= stage(BringupState::AwaitingAddress),
        forall|i: int| 0 <= i < events.len() ==> !is_address_confirmation(events[i]),
    ensures
        stage(run(s0, events)) <= stage(BringupState::AwaitingAddress),
        !(pending_action(run(s0, events)) matches BringupAction::PollLink { .. }),
        pending_action(run(s0, events)) != BringupAction::AwaitStackConfigured,
        pending_action(run(s0, events)) != BringupAction::HandOff,
    decreases events.len(),
{
    if events.len() > 0 {
        assert(!is_address_confirmation(events[0]));
        let rest = events.subrange(1, events.len() as int);
        assert(forall|i: int| 0 <= i < rest.len() ==> !is_address_confirmation(#[trigger] rest[i]));
        lemma_no_link_poll_before_address(next_state(s0, events[0]), rest);
    }
}

/// Law: before a poll has observed the link up, the bring-up never passes
/// `AwaitingLink`; in particular the stack's readiness wait is never owed
/// until both the address and the link were observed up.
pub proof fn lemma_no_stack_wait_before_link(s0: BringupState, events: Seq<BringupEvent>)
    requires
        stage(s0) <= stage(BringupState::AwaitingLink),
        forall|i: int| 0 <= i < events.len() ==> !is_link_confirmation(events[i]),
    ensures
        stage(run(s0, events)) <= stage(BringupState::AwaitingLink),
        pending_action(run(s0, events)) != BringupAction::AwaitStackConfigured,
        pending_action(run(s0, events)) != BringupAction::HandOff,
    decreases events.len(),
{
    if events.len() > 0 {
        assert(!is_link_confirmation(events[0]));
        let rest = events.subrange(1, events.len() as int);
        assert(forall|i: int| 0 <= i < rest.len() ==> !is_link_confirmation(#[trigger] rest[i]));
        lemma_no_stack_wait_before_link(next_state(s0, events[0]), rest);
    }
}

} // verus!
