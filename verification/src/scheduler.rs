//! The session that the event loop owns, and the arithmetic of its fixed
//! tick. The loop itself blocks on the terminal and belongs to the front
//! end; every decision it takes is a function here.

use vstd::prelude::*;
use crate::agent::{loaded_or_empty, AgentRecord};
use crate::layout::{
    dashboard_layout, spec_outer_margin, spec_roomy, spec_roomy_layout, Region,
};
use crate::render::{render, spec_no_selection, spec_texts, Frame};
use crate::selection::{spec_apply, spec_quits, spec_run, spec_consumed, Action, Poll, SelectionState};

verus! {

/// The interval between two tick boundaries, in milliseconds.
pub const TICK_RATE_MS: u64 = 200;

/// The agents, fetched once, and the selection over them.
#[derive(Clone, Debug, PartialEq, Eq)]
pub struct Session {
    pub agents: Vec<AgentRecord>,
    pub selection: SelectionState,
}

/// The time that is left until the next tick boundary: never negative.
pub open spec fn spec_poll_timeout(tick_rate_ms: u64, elapsed_ms: u64) -> u64 {
    if elapsed_ms >= tick_rate_ms {
        0
    } else {
        (tick_rate_ms - elapsed_ms) as u64
    }
}

/// The tick boundary after a poll: moved to now once the interval has run
/// out, else left where it was.
pub open spec fn spec_next_boundary(last_tick_ms: u64, now_ms: u64, tick_rate_ms: u64) -> u64 {
    if now_ms - last_tick_ms >= tick_rate_ms {
        now_ms
    } else {
        last_tick_ms
    }
}

/// How long the next poll may block, given the time that has passed since
/// the last tick boundary.
pub fn poll_timeout(tick_rate_ms: u64, elapsed_ms: u64) -> (timeout_ms: u64)
    ensures
        timeout_ms == spec_poll_timeout(tick_rate_ms, elapsed_ms),
        timeout_ms <= tick_rate_ms,
        timeout_ms + elapsed_ms >= tick_rate_ms,
        elapsed_ms <= tick_rate_ms ==> timeout_ms + elapsed_ms == tick_rate_ms,
{
    if elapsed_ms >= tick_rate_ms {
        0
    } else {
        tick_rate_ms - elapsed_ms
    }
}

/// Whether the tick boundary has passed.
pub fn boundary_passed(tick_rate_ms: u64, elapsed_ms: u64) -> (passed: bool)
    ensures
        passed == (elapsed_ms >= tick_rate_ms),
{
    elapsed_ms >= tick_rate_ms
}

/// Advances the tick boundary to now if it has passed. A clock that reads
/// earlier than the boundary leaves it alone.
pub fn next_boundary(last_tick_ms: u64, now_ms: u64, tick_rate_ms: u64) -> (boundary_ms: u64)
    ensures
        boundary_ms == spec_next_boundary(last_tick_ms, now_ms, tick_rate_ms),
        boundary_ms == now_ms || boundary_ms == last_tick_ms,
{
    if now_ms >= last_tick_ms && boundary_passed(tick_rate_ms, now_ms - last_tick_ms) {
        now_ms
    } else {
        last_tick_ms
    }
}

/// The fixed-rate clock of the event loop: the interval and the last tick
/// boundary, both in milliseconds of a clock that the front end reads.
#[derive(Clone, Copy, Debug, PartialEq, Eq, Structural)]
pub struct TickClock {
    pub tick_rate_ms: u64,
    pub last_tick_ms: u64,
}

impl TickClock {
    /// The time that has passed since the last boundary; none where the
    /// clock reads earlier than the boundary.
    pub open spec fn spec_elapsed(self, now_ms: u64) -> u64 {
        if now_ms >= self.last_tick_ms {
            (now_ms - self.last_tick_ms) as u64
        } else {
            0
        }
    }

    /// A clock whose first boundary is now.
    pub fn new(tick_rate_ms: u64, now_ms: u64) -> (clock: TickClock)
        ensures
            clock == (TickClock { tick_rate_ms, last_tick_ms: now_ms }),
    {
        TickClock { tick_rate_ms, last_tick_ms: now_ms }
    }

    /// How long a poll that starts now may block: what is left of the
    /// interval, and nothing once the boundary has passed.
    pub fn timeout_at(&self, now_ms: u64) -> (timeout_ms: u64)
        ensures
            timeout_ms == spec_poll_timeout(self.tick_rate_ms, self.spec_elapsed(now_ms)),
            timeout_ms <= self.tick_rate_ms,
    {
        let elapsed = if now_ms >= self.last_tick_ms {
            now_ms - self.last_tick_ms
        } else {
            0
        };
        poll_timeout(self.tick_rate_ms, elapsed)
    }

    /// Ends a tick: the boundary moves to now if it has passed.
    pub fn advance(&mut self, now_ms: u64)
        ensures
            final(self).tick_rate_ms == old(self).tick_rate_ms,
            final(self).last_tick_ms == spec_next_boundary(
                old(self).last_tick_ms,
                now_ms,
                old(self).tick_rate_ms,
            ),
            old(self).tick_rate_ms > 0 ==> final(self).spec_elapsed(now_ms) < old(self).tick_rate_ms,
    {
        self.last_tick_ms = next_boundary(self.last_tick_ms, now_ms, self.tick_rate_ms);
    }
}

impl Session {
    /// The selection points into the list, or rests on zero over an empty
    /// one.
    pub open spec fn spec_valid(self) -> bool {
        self.selection.valid_for(self.agents.len())
    }

    /// A session over the given agents, with the first one selected.
    pub fn new(agents: Vec<AgentRecord>) -> (s: Session)
        ensures
            s.agents == agents,
            s.selection.selected_index == 0,
            s.selection.last_key.is_none(),
            s.spec_valid(),
    {
        Session { agents, selection: SelectionState::new() }
    }

    /// A session over what the store gave. Where the store failed, the
    /// session starts all the same, over no agents.
    pub fn start(loaded: Option<Vec<AgentRecord>>) -> (s: Session)
        ensures
            loaded.is_some() ==> s.agents == loaded.unwrap(),
            loaded.is_none() ==> s.agents@.len() == 0,
            s.selection.selected_index == 0,
            s.selection.last_key.is_none(),
            s.spec_valid(),
    {
        Session::new(loaded_or_empty(loaded))
    }

    /// The index of the selected agent, if there is one.
    pub fn selected(&self) -> (sel: Option<usize>)
        ensures
            sel == self.selection.spec_selected(self.agents.len()),
            self.agents@.len() == 0 ==> sel.is_none(),
            sel.is_some() ==> sel.unwrap() < self.agents@.len(),
    {
        self.selection.selected(self.agents.len())
    }

    /// Dispatches what one poll yielded. The agents are never touched; the
    /// action is `Quit` on the very poll that brought the quit key.
    pub fn dispatch(&mut self, poll: Poll) -> (action: Action)
        ensures
            final(self).agents == old(self).agents,
            final(self).selection == spec_apply(old(self).selection, poll, old(self).agents.len()),
            action == Action::Quit <==> spec_quits(poll),
            spec_quits(poll) ==> *final(self) == *old(self),
            old(self).spec_valid() ==> final(self).spec_valid(),
    {
        let len = self.agents.len();
        self.selection.apply(poll, len)
    }

    /// Dispatches a recorded sequence of polls, one per tick, and stops
    /// after the tick that brought the quit key. Returns the number of
    /// ticks that ran.
    pub fn replay(&mut self, polls: &Vec<Poll>) -> (ticks: usize)
        ensures
            final(self).agents == old(self).agents,
            final(self).selection == spec_run(old(self).selection, polls@, old(self).agents.len()),
            ticks == spec_consumed(polls@),
            old(self).spec_valid() ==> final(self).spec_valid(),
    {
        let len = self.agents.len();
        self.selection.run(polls, len)
    }

    /// Composes the frame for the current state and terminal area.
    pub fn frame(&self, area: Region) -> (frame: Frame)
        ensures
            frame.spec_shows(
                self.agents@,
                self.selection.spec_selected(self.agents.len()),
                frame.spec_layout(),
            ),
            spec_roomy(area) ==> frame.spec_layout() == spec_roomy_layout(area),
            frame.spec_layout().spec_pinned(area),
            frame.spec_layout().spec_arranged(area),
            frame.spec_layout().spec_ordered(),
            frame.spec_layout().spec_within(area.spec_inner(spec_outer_margin())),
            area.width >= 2 && area.height >= 2 ==> frame.spec_layout().spec_within(area),
            self.agents@.len() == 0 ==> frame.agent_list.rows@.len() == 0 && spec_texts(
                frame.detail.lines@,
            ) == seq![spec_no_selection()],
    {
        render(&self.agents, self.selected(), dashboard_layout(area))
    }
}

} // verus!
