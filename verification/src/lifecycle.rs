//! The order in which a session takes hold of the terminal, runs, and gives
//! the terminal back. The front end performs each command and reports its
//! outcome; which command comes next is decided here, so that the terminal
//! is released exactly once on every path.

use vstd::prelude::*;

verus! {

/// What the front end is asked to do next.
#[derive(Clone, Copy, Debug, PartialEq, Eq, Structural)]
pub enum Command {
    /// Put the terminal into raw mode on the alternate screen.
    Acquire,
    /// Fetch the agents from the store, once.
    Load,
    /// Run one tick: draw, poll, dispatch.
    Tick,
    /// Restore the terminal and show the cursor.
    Release,
    /// Leave the program.
    Exit,
}

/// How the command that was asked for ended.
#[derive(Clone, Copy, Debug, PartialEq, Eq, Structural)]
pub enum Outcome {
    Succeeded,
    Failed,
    /// The tick brought the quit key.
    QuitRequested,
}

/// The command that is due, and whether the terminal has failed so far.
#[derive(Clone, Copy, Debug, PartialEq, Eq, Structural)]
pub struct Lifecycle {
    pub pending: Command,
    pub failed: bool,
}

/// The state after the pending command has ended with `outcome`.
///
/// A terminal that cannot be acquired, drawn to or polled is fatal, and
/// the release is still attempted. A store that cannot be read is not: the
/// session runs over no agents. A quit key leads straight to the release.
pub open spec fn spec_next(state: Lifecycle, outcome: Outcome) -> Lifecycle {
    match state.pending {
        Command::Acquire => match outcome {
            Outcome::Failed => Lifecycle { pending: Command::Release, failed: true },
            _ => Lifecycle { pending: Command::Load, failed: state.failed },
        },
        Command::Load => Lifecycle { pending: Command::Tick, failed: state.failed },
        Command::Tick => match outcome {
            Outcome::Succeeded => state,
            Outcome::QuitRequested => Lifecycle { pending: Command::Release, failed: state.failed },
            Outcome::Failed => Lifecycle { pending: Command::Release, failed: true },
        },
        Command::Release => match outcome {
            Outcome::Failed => Lifecycle { pending: Command::Exit, failed: true },
            _ => Lifecycle { pending: Command::Exit, failed: state.failed },
        },
        Command::Exit => state,
    }
}

/// The state after a sequence of outcomes, each for the command that was
/// pending when it came.
pub open spec fn spec_after(state: Lifecycle, outcomes: Seq<Outcome>) -> Lifecycle
    decreases outcomes.len(),
{
    if outcomes.len() == 0 {
        state
    } else {
        spec_after(spec_next(state, outcomes[0]), outcomes.drop_first())
    }
}

/// The commands that were performed on the way: the command pending in
/// `state` and each that became pending after it, `Exit` left out, up to
/// the command whose outcome is the last of `outcomes`.
pub open spec fn spec_performed(state: Lifecycle, outcomes: Seq<Outcome>) -> Seq<Command>
    decreases outcomes.len(),
{
    if outcomes.len() == 0 || state.pending == Command::Exit {
        Seq::empty()
    } else {
        seq![state.pending] + spec_performed(spec_next(state, outcomes[0]), outcomes.drop_first())
    }
}

/// How often a command occurs.
pub open spec fn spec_count(commands: Seq<Command>, command: Command) -> nat
    decreases commands.len(),
{
    if commands.len() == 0 {
        0
    } else {
        spec_count(commands.drop_first(), command) + if commands[0] == command {
            1nat
        } else {
            0nat
        }
    }
}

pub open spec fn spec_start() -> Lifecycle {
    Lifecycle { pending: Command::Acquire, failed: false }
}

impl Lifecycle {
    /// Before anything has happened: the terminal is to be acquired.
    pub fn start() -> (state: Lifecycle)
        ensures
            state == spec_start(),
    {
        Lifecycle { pending: Command::Acquire, failed: false }
    }

    /// Takes the outcome of the pending command and says what is due next.
    pub fn next(self, outcome: Outcome) -> (state: Lifecycle)
        ensures
            state == spec_next(self, outcome),
            self.pending == Command::Tick && outcome == Outcome::QuitRequested ==> state.pending
                == Command::Release,
            self.failed ==> state.failed,
    {
        match self.pending {
            Command::Acquire => match outcome {
                Outcome::Failed => Lifecycle { pending: Command::Release, failed: true },
                _ => Lifecycle { pending: Command::Load, failed: self.failed },
            },
            Command::Load => Lifecycle { pending: Command::Tick, failed: self.failed },
            Command::Tick => match outcome {
                Outcome::Succeeded => self,
                Outcome::QuitRequested => Lifecycle { pending: Command::Release, failed: self.failed },
                Outcome::Failed => Lifecycle { pending: Command::Release, failed: true },
            },
            Command::Release => match outcome {
                Outcome::Failed => Lifecycle { pending: Command::Exit, failed: true },
                _ => Lifecycle { pending: Command::Exit, failed: self.failed },
            },
            Command::Exit => self,
        }
    }

    /// Whether the program is over.
    pub fn finished(&self) -> (done: bool)
        ensures
            done == (self.pending == Command::Exit),
    {
        match self.pending {
            Command::Exit => true,
            _ => false,
        }
    }

    /// Replays a recorded sequence of outcomes from this state. Returns the
    /// commands that were performed, in order.
    pub fn replay(&mut self, outcomes: &Vec<Outcome>) -> (performed: Vec<Command>)
        ensures
            *final(self) == spec_after(*old(self), outcomes@),
            performed@ == spec_performed(*old(self), outcomes@),
    {
        let mut performed: Vec<Command> = Vec::new();
        let mut i: usize = 0;
        proof {
            assert(outcomes@.skip(0) =~= outcomes@);
        }
        while i < outcomes.len()
            invariant
                i <= outcomes.len(),
                spec_after(*old(self), outcomes@) == spec_after(*self, outcomes@.skip(i as int)),
                spec_performed(*old(self), outcomes@) == performed@ + spec_performed(
                    *self,
                    outcomes@.skip(i as int),
                ),
            decreases outcomes.len() - i,
        {
            proof {
                let rest = outcomes@.skip(i as int);
                assert(rest[0] == outcomes@[i as int]);
                assert(rest.drop_first() =~= outcomes@.skip(i as int + 1));
            }
            let ghost before = performed@;
            let ghost tail = spec_performed(
                spec_next(*self, outcomes@[i as int]),
                outcomes@.skip(i as int + 1),
            );
            if !self.finished() {
                performed.push(self.pending);
                assert(performed@ + tail =~= before + (seq![self.pending] + tail));
            } else {
                proof {
                    lemma_nothing_after_exit(*self, outcomes@.skip(i as int + 1));
                }
            }
            *self = self.next(outcomes[i]);
            i = i + 1;
        }
        proof {
            assert(performed@ + Seq::<Command>::empty() =~= performed@);
        }
        performed
    }
}

/// Once the program is over, nothing more is performed.
pub proof fn lemma_nothing_after_exit(state: Lifecycle, outcomes: Seq<Outcome>)
    requires
        state.pending == Command::Exit,
    ensures
        spec_performed(state, outcomes) == Seq::<Command>::empty(),
        spec_after(state, outcomes) == state,
    decreases outcomes.len(),
{
    if outcomes.len() > 0 {
        lemma_nothing_after_exit(state, outcomes.drop_first());
    }
}

proof fn lemma_count_cons(first: Command, rest: Seq<Command>, command: Command)
    ensures
        spec_count(seq![first] + rest, command) == spec_count(rest, command) + if first == command {
            1nat
        } else {
            0nat
        },
{
    assert((seq![first] + rest).drop_first() =~= rest);
}

/// From any state and for any outcomes: the terminal is acquired only by a
/// state that still has the acquisition before it, and then once; the store
/// is read at most once, and never once the ticks have begun; the terminal
/// is released at most once; and a run that has reached its end has
/// released it exactly once if anything was performed at all.
pub proof fn lemma_commands_from(state: Lifecycle, outcomes: Seq<Outcome>)
    ensures
        spec_count(spec_performed(state, outcomes), Command::Acquire) == (if state.pending
            == Command::Acquire && outcomes.len() > 0 {
            1nat
        } else {
            0nat
        }),
        spec_count(spec_performed(state, outcomes), Command::Load) <= 1,
        state.pending != Command::Acquire && state.pending != Command::Load ==> spec_count(
            spec_performed(state, outcomes),
            Command::Load,
        ) == 0,
        spec_count(spec_performed(state, outcomes), Command::Release) <= 1,
        spec_count(spec_performed(state, outcomes), Command::Exit) == 0,
        state.pending != Command::Exit && spec_after(state, outcomes).pending == Command::Exit
            ==> spec_count(spec_performed(state, outcomes), Command::Release) == 1,
        spec_after(state, outcomes).pending != Command::Exit && spec_after(state, outcomes).pending
            != Command::Release ==> spec_count(spec_performed(state, outcomes), Command::Release)
            == 0,
    decreases outcomes.len(),
{
    if outcomes.len() == 0 {
    } else if state.pending == Command::Exit {
        lemma_nothing_after_exit(state, outcomes);
    } else {
        let next = spec_next(state, outcomes[0]);
        let rest = outcomes.drop_first();
        lemma_commands_from(next, rest);
        let tail = spec_performed(next, rest);
        lemma_count_cons(state.pending, tail, Command::Acquire);
        lemma_count_cons(state.pending, tail, Command::Load);
        lemma_count_cons(state.pending, tail, Command::Release);
        lemma_count_cons(state.pending, tail, Command::Exit);
        if next.pending == Command::Exit {
            lemma_nothing_after_exit(next, rest);
        }
        if state.pending == Command::Release {
            lemma_nothing_after_exit(next, rest);
        }
    }
}

/// Every run from the start that reaches its end has acquired the terminal
/// exactly once and released it exactly once, whether the terminal failed,
/// the store failed, or the quit key came. The acquisition comes first and
/// the release last.
pub proof fn lemma_one_acquire_one_release(outcomes: Seq<Outcome>)
    requires
        spec_after(spec_start(), outcomes).pending == Command::Exit,
    ensures
        spec_count(spec_performed(spec_start(), outcomes), Command::Acquire) == 1,
        spec_count(spec_performed(spec_start(), outcomes), Command::Release) == 1,
        spec_count(spec_performed(spec_start(), outcomes), Command::Load) <= 1,
        spec_performed(spec_start(), outcomes)[0] == Command::Acquire,
        spec_performed(spec_start(), outcomes).last() == Command::Release,
{
    lemma_commands_from(spec_start(), outcomes);
    lemma_release_is_last(spec_start(), outcomes);
}

/// In a run that reaches its end, the release is the last thing performed.
pub proof fn lemma_release_is_last(state: Lifecycle, outcomes: Seq<Outcome>)
    requires
        state.pending != Command::Exit,
        spec_after(state, outcomes).pending == Command::Exit,
    ensures
        spec_performed(state, outcomes).len() > 0,
        spec_performed(state, outcomes)[0] == state.pending,
        spec_performed(state, outcomes).last() == Command::Release,
    decreases outcomes.len(),
{
    let next = spec_next(state, outcomes[0]);
    let rest = outcomes.drop_first();
    if next.pending == Command::Exit {
        lemma_nothing_after_exit(next, rest);
        assert(spec_performed(state, outcomes) =~= seq![state.pending]);
    } else {
        lemma_release_is_last(next, rest);
        let tail = spec_performed(next, rest);
        assert((seq![state.pending] + tail).last() == tail.last());
    }
}

/// The quit key ends the loop on the tick that brought it: the next thing
/// performed is the release, and nothing but the exit follows.
pub proof fn lemma_quit_releases_at_once(state: Lifecycle, outcome: Outcome)
    requires
        state.pending == Command::Tick,
    ensures
        spec_next(state, Outcome::QuitRequested).pending == Command::Release,
        spec_next(spec_next(state, Outcome::QuitRequested), outcome).pending == Command::Exit,
{
}

} // verus!
