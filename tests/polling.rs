use render_deploy::poller::{PollAction, PollState, Poller, NANOS_PER_SEC, POLL_INTERVAL_SECS};
use render_deploy::status::DeployStatus;

/// Drives a poller against a stub list of statuses on a simulated clock:
/// each cycle sleeps the interval and then fetches the next status.
fn run(timeout_secs: u64, statuses: &[DeployStatus]) -> (PollState, usize, u128) {
    let mut poller = Poller::new(timeout_secs);
    let mut clock: u128 = 0;
    let mut fetched = 0;
    loop {
        match poller.on_tick(clock) {
            PollAction::Stop(state) => return (state, fetched, clock),
            PollAction::SleepThenFetch(secs) => {
                clock += secs as u128 * NANOS_PER_SEC;
                let status = statuses[fetched.min(statuses.len() - 1)];
                fetched += 1;
                if poller.on_fetch(status) != PollState::Polling {
                    return (poller.state(), fetched, clock);
                }
            }
        }
    }
}

#[test]
fn poller_stops_on_live() {
    let statuses = [DeployStatus::BuildInProgress, DeployStatus::BuildInProgress, DeployStatus::Live];
    let (state, fetched, clock) = run(600, &statuses);
    assert_eq!(state, PollState::Succeeded);
    assert_eq!(fetched, 3);
    assert!(clock >= 2 * POLL_INTERVAL_SECS as u128 * NANOS_PER_SEC);
}

#[test]
fn poller_stops_on_failure() {
    let statuses = [DeployStatus::Created, DeployStatus::UpdateInProgress, DeployStatus::BuildFailed];
    let (state, fetched, _) = run(600, &statuses);
    assert_eq!(state, PollState::Failed);
    assert_eq!(fetched, 3);
}

#[test]
fn poller_times_out_before_one_cycle() {
    let (state, fetched, _) = run(1, &[DeployStatus::BuildInProgress]);
    assert_eq!(state, PollState::TimedOut);
    assert_eq!(fetched, 1);
}

#[test]
fn poller_times_out_with_bounded_fetches() {
    let (state, fetched, _) = run(60, &[DeployStatus::PreDeployInProgress]);
    assert_eq!(state, PollState::TimedOut);
    assert!(fetched as u64 <= 60 / POLL_INTERVAL_SECS + 1);
}

#[test]
fn tick_at_the_timeout_keeps_polling() {
    let mut p = Poller::new(10);
    assert_eq!(p.on_tick(10 * NANOS_PER_SEC), PollAction::SleepThenFetch(POLL_INTERVAL_SECS));
    assert_eq!(p.on_tick(10 * NANOS_PER_SEC + 1), PollAction::Stop(PollState::TimedOut));
}

#[test]
fn stopped_poller_stays_stopped() {
    let mut p = Poller::new(600);
    assert_eq!(p.on_fetch(DeployStatus::Canceled), PollState::Failed);
    assert_eq!(p.on_fetch(DeployStatus::Live), PollState::Failed);
    assert_eq!(p.on_tick(u128::MAX), PollAction::Stop(PollState::Failed));
    assert_eq!(p.action(), PollAction::Stop(PollState::Failed));
}
