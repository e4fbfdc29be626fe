use vstd::prelude::*;

use crate::status::{class_of, is_in_progress, DeployStatus, StatusClass};

verus! {

/// Seconds slept between two fetches of a deploy's status.
pub const POLL_INTERVAL_SECS: u64 = 5;

pub const NANOS_PER_SEC: u128 = 1_000_000_000;

/// Where the poller stands: still polling, or stopped for one of three reasons.
#[derive(Clone, Copy, Debug, PartialEq, Eq, Structural)]
pub enum PollState {
    Polling,
    TimedOut,
    Succeeded,
    Failed,
}

/// What the driver of the poller does next.
#[derive(Clone, Copy, Debug, PartialEq, Eq, Structural)]
pub enum PollAction {
    /// Sleep for this many seconds, then fetch the deploy and report its status.
    SleepThenFetch(u64),
    /// Stop waiting; the state says why.
    Stop(PollState),
}

/// The abstract state of a poller: its timeout and where it stands.
pub struct PollerView {
    pub timeout_nanos: nat,
    pub state: PollState,
}

/// The state after the clock is read, `elapsed` nanoseconds after polling began.
pub open spec fn tick_outcome(state: PollState, elapsed: nat, timeout: nat) -> PollState {
    if state != PollState::Polling {
        state
    } else if elapsed > timeout {
        PollState::TimedOut
    } else {
        PollState::Polling
    }
}

/// The state after a fetch reports `status`.
pub open spec fn fetch_outcome(state: PollState, status: DeployStatus) -> PollState {
    if state != PollState::Polling {
        state
    } else {
        match class_of(status) {
            StatusClass::InProgress => PollState::Polling,
            StatusClass::SuccessTerminal => PollState::Succeeded,
            StatusClass::FailureTerminal => PollState::Failed,
        }
    }
}

/// The action that follows a state.
pub open spec fn action_for(state: PollState) -> PollAction {
    if state == PollState::Polling {
        PollAction::SleepThenFetch(POLL_INTERVAL_SECS)
    } else {
        PollAction::Stop(state)
    }
}

/// The decisions of the loop that waits for a deploy to settle. The driver
/// reads the clock and calls `on_tick`, performs the action it returns, and
/// after each fetch hands the status to `on_fetch`.
pub struct Poller {
    timeout_nanos: u128,
    state: PollState,
}

impl View for Poller {
    type V = PollerView;

    closed spec fn view(&self) -> PollerView {
        PollerView { timeout_nanos: self.timeout_nanos as nat, state: self.state }
    }
}

impl Poller {
    /// A poller that gives up once more than `timeout_secs` seconds have passed.
    pub fn new(timeout_secs: u64) -> (r: Poller)
        ensures
            r@.timeout_nanos == timeout_secs as nat * NANOS_PER_SEC as nat,
            r@.state == PollState::Polling,
    {
        assert(timeout_secs as u128 * NANOS_PER_SEC <= u128::MAX) by (nonlinear_arith)
            requires
                timeout_secs <= u64::MAX,
                NANOS_PER_SEC == 1_000_000_000u128,
        ;
        Poller { timeout_nanos: timeout_secs as u128 * NANOS_PER_SEC, state: PollState::Polling }
    }

    pub fn state(&self) -> (r: PollState)
        ensures
            r == self@.state,
    {
        self.state
    }

    /// Reads the clock: past the timeout a polling poller times out; otherwise
    /// the state is kept. Returns what to do next.
    pub fn on_tick(&mut self, elapsed_nanos: u128) -> (r: PollAction)
        ensures
            final(self)@.timeout_nanos == old(self)@.timeout_nanos,
            final(self)@.state == tick_outcome(
                old(self)@.state,
                elapsed_nanos as nat,
                old(self)@.timeout_nanos,
            ),
            r == action_for(final(self)@.state),
    {
        if self.state == PollState::Polling && elapsed_nanos > self.timeout_nanos {
            self.state = PollState::TimedOut;
        }
        self.action()
    }

    /// Takes the status that a fetch reported: an in-progress status keeps the
    /// poller polling, `Live` ends it in success, any other status in failure.
    pub fn on_fetch(&mut self, status: DeployStatus) -> (r: PollState)
        ensures
            final(self)@.timeout_nanos == old(self)@.timeout_nanos,
            final(self)@.state == fetch_outcome(old(self)@.state, status),
            r == final(self)@.state,
    {
        if self.state == PollState::Polling {
            self.state =
            match status.classify() {
                StatusClass::InProgress => PollState::Polling,
                StatusClass::SuccessTerminal => PollState::Succeeded,
                StatusClass::FailureTerminal => PollState::Failed,
            };
        }
        self.state
    }

    /// What to do next from the current state.
    pub fn action(&self) -> (r: PollAction)
        ensures
            r == action_for(self@.state),
    {
        if self.state == PollState::Polling {
            PollAction::SleepThenFetch(POLL_INTERVAL_SECS)
        } else {
            PollAction::Stop(self.state)
        }
    }
}

/// The state after a run of fetches, in order, none of which found the clock
/// past the timeout.
pub open spec fn after_fetches(state: PollState, statuses: Seq<DeployStatus>) -> PollState
    decreases statuses.len(),
{
    if statuses.len() == 0 {
        state
    } else {
        fetch_outcome(after_fetches(state, statuses.drop_last()), statuses.last())
    }
}

proof fn lemma_in_progress_run_keeps_polling(statuses: Seq<DeployStatus>)
    requires
        forall|i: int| 0 <= i < statuses.len() ==> is_in_progress(#[trigger] statuses[i]),
    ensures
        after_fetches(PollState::Polling, statuses) == PollState::Polling,
    decreases statuses.len(),
{
    if statuses.len() > 0 {
        let rest = statuses.drop_last();
        assert forall|i: int| 0 <= i < rest.len() implies is_in_progress(#[trigger] rest[i]) by {
            assert(rest[i] == statuses[i]);
        }
        lemma_in_progress_run_keeps_polling(rest);
        assert(is_in_progress(statuses[statuses.len() - 1]));
    }
}

/// Fed a run of in-progress statuses followed by a terminal one, a poller
/// keeps polling through every prefix of the run and stops on the terminal
/// status, in success for `Live` and in failure otherwise.
pub proof fn lemma_poller_stops_at_first_terminal(in_progress: Seq<DeployStatus>, last: DeployStatus)
    requires
        forall|i: int| 0 <= i < in_progress.len() ==> is_in_progress(#[trigger] in_progress[i]),
        !is_in_progress(last),
    ensures
        forall|j: int|
            0 <= j <= in_progress.len() ==> after_fetches(PollState::Polling, #[trigger] in_progress.take(j))
                == PollState::Polling,
        after_fetches(PollState::Polling, in_progress.push(last)) == (if last == DeployStatus::Live {
            PollState::Succeeded
        } else {
            PollState::Failed
        }),
{
    assert forall|j: int| 0 <= j <= in_progress.len() implies after_fetches(
        PollState::Polling,
        #[trigger] in_progress.take(j),
    ) == PollState::Polling by {
        let p = in_progress.take(j);
        assert forall|i: int| 0 <= i < p.len() implies is_in_progress(#[trigger] p[i]) by {
            assert(p[i] == in_progress[i]);
        }
        lemma_in_progress_run_keeps_polling(p);
    }
    lemma_in_progress_run_keeps_polling(in_progress);
    assert(in_progress.push(last).drop_last() == in_progress);
}

/// Stopped states are final: no reading of the clock and no fetched status
/// moves the poller out of them.
pub proof fn lemma_stopped_states_are_final(state: PollState, elapsed: nat, timeout: nat, status: DeployStatus)
    requires
        state != PollState::Polling,
    ensures
        tick_outcome(state, elapsed, timeout) == state,
        fetch_outcome(state, status) == state,
{
}

/// Each fetch is preceded by a full poll interval of sleep, so after
/// `fetches` fetches at least `fetches` intervals have passed. A poller that is
/// still polling at that point has a timeout of at least that long: a poller
/// issues at most timeout / interval + 1 fetches, and with a timeout shorter
/// than one interval it times out at the first tick after its first fetch.
pub proof fn lemma_fetches_bounded_by_timeout(timeout_secs: nat, fetches: nat, elapsed_nanos: nat)
    requires
        elapsed_nanos >= fetches * POLL_INTERVAL_SECS * NANOS_PER_SEC,
        tick_outcome(PollState::Polling, elapsed_nanos, (timeout_secs * NANOS_PER_SEC) as nat)
            == PollState::Polling,
    ensures
        fetches * POLL_INTERVAL_SECS <= timeout_secs,
        timeout_secs < POLL_INTERVAL_SECS ==> fetches == 0,
{
    assert(fetches * POLL_INTERVAL_SECS * NANOS_PER_SEC <= timeout_secs * NANOS_PER_SEC);
    assert(fetches * POLL_INTERVAL_SECS <= timeout_secs) by (nonlinear_arith)
        requires
            fetches * POLL_INTERVAL_SECS * NANOS_PER_SEC <= timeout_secs * NANOS_PER_SEC,
            NANOS_PER_SEC > 0,
    ;
    assert(timeout_secs < POLL_INTERVAL_SECS ==> fetches == 0) by (nonlinear_arith)
        requires
            fetches * POLL_INTERVAL_SECS <= timeout_secs,
            POLL_INTERVAL_SECS == 5,
    ;
}

} // verus!
