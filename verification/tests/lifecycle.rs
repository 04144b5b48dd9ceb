use scylla::lifecycle::Outcome::{Failed, QuitRequested, Succeeded};
use scylla::lifecycle::{Command, Lifecycle, Outcome};

fn count(commands: &[Command], c: Command) -> usize {
    commands.iter().filter(|x| **x == c).count()
}

fn run(outcomes: Vec<Outcome>) -> (Lifecycle, Vec<Command>) {
    let mut life = Lifecycle::start();
    let performed = life.replay(&outcomes);
    (life, performed)
}

#[test]
fn starts_by_acquiring_the_terminal() {
    let life = Lifecycle::start();
    assert_eq!(life, Lifecycle { pending: Command::Acquire, failed: false });
    assert!(!life.finished());
}

#[test]
fn plain_session_acquires_loads_ticks_and_releases() {
    let (life, performed) = run(vec![Succeeded, Succeeded, Succeeded, Succeeded, QuitRequested, Succeeded]);
    assert_eq!(
        performed,
        vec![
            Command::Acquire,
            Command::Load,
            Command::Tick,
            Command::Tick,
            Command::Tick,
            Command::Release
        ]
    );
    assert_eq!(life, Lifecycle { pending: Command::Exit, failed: false });
    assert!(life.finished());
}

#[test]
fn quit_on_a_tick_is_followed_by_the_release() {
    let ticking = Lifecycle { pending: Command::Tick, failed: false };
    assert_eq!(ticking.next(Outcome::Succeeded).pending, Command::Tick);
    assert_eq!(ticking.next(Outcome::QuitRequested), Lifecycle { pending: Command::Release, failed: false });
}

#[test]
fn failed_store_still_runs_and_releases_once() {
    let (life, performed) = run(vec![Succeeded, Failed, Succeeded, QuitRequested, Succeeded]);
    assert_eq!(count(&performed, Command::Acquire), 1);
    assert_eq!(count(&performed, Command::Release), 1);
    assert_eq!(count(&performed, Command::Tick), 2);
    assert_eq!(life, Lifecycle { pending: Command::Exit, failed: false });
}

#[test]
fn failed_acquire_goes_straight_to_the_release() {
    let (life, performed) = run(vec![Outcome::Failed, Outcome::Succeeded]);
    assert_eq!(performed, vec![Command::Acquire, Command::Release]);
    assert_eq!(life, Lifecycle { pending: Command::Exit, failed: true });
}

#[test]
fn failed_tick_releases_and_reports_the_failure() {
    let (life, performed) = run(vec![Succeeded, Succeeded, Succeeded, Failed, Succeeded]);
    assert_eq!(
        performed,
        vec![Command::Acquire, Command::Load, Command::Tick, Command::Tick, Command::Release]
    );
    assert_eq!(life, Lifecycle { pending: Command::Exit, failed: true });
}

#[test]
fn failed_release_ends_the_program_as_failed() {
    let releasing = Lifecycle { pending: Command::Release, failed: false };
    assert_eq!(releasing.next(Outcome::Failed), Lifecycle { pending: Command::Exit, failed: true });
    assert_eq!(releasing.next(Outcome::Succeeded), Lifecycle { pending: Command::Exit, failed: false });
}

#[test]
fn nothing_is_performed_after_the_exit() {
    let (life, performed) =
        run(vec![Succeeded, Succeeded, QuitRequested, Succeeded, Succeeded, Failed, QuitRequested]);
    assert_eq!(performed, vec![Command::Acquire, Command::Load, Command::Tick, Command::Release]);
    assert_eq!(life, Lifecycle { pending: Command::Exit, failed: false });
}

#[test]
fn unfinished_run_has_not_released() {
    let (life, performed) = run(vec![Succeeded, Succeeded, Succeeded]);
    assert_eq!(count(&performed, Command::Acquire), 1);
    assert_eq!(count(&performed, Command::Release), 0);
    assert_eq!(life.pending, Command::Tick);
}
