//! The cursor over the agent list, and the debounce that turns a held
//! navigation key into a single step.

use vstd::prelude::*;

verus! {

/// Identity of a navigation key, as kept in the debounce slot.
#[derive(Clone, Copy, Debug, PartialEq, Eq, Structural)]
pub enum KeyIdentity {
    Up,
    Down,
}

/// A key as the input source reports it, reduced to what the dashboard
/// tells apart.
#[derive(Clone, Copy, Debug, PartialEq, Eq)]
pub enum KeyInput {
    Up,
    Down,
    Char(char),
    Other,
}

/// A key event after classification.
#[derive(Clone, Copy, Debug, PartialEq, Eq, Structural)]
pub enum KeyEvent {
    NavigateUp,
    NavigateDown,
    Quit,
    Other,
}

/// What one bounded poll for input yielded.
#[derive(Clone, Copy, Debug, PartialEq, Eq)]
pub enum Poll {
    /// The timeout ran out with no event.
    Timeout,
    /// A key event arrived.
    Key(KeyEvent),
    /// An event arrived that is no key (a resize, the mouse): it leaves
    /// the selection untouched, debounce slot included.
    Unrelated,
}

/// What the scheduler does after a poll has been dispatched.
#[derive(Clone, Copy, Debug, PartialEq, Eq, Structural)]
pub enum Action {
    Continue,
    Quit,
}

/// The highlighted position and the most recently acted-upon navigation key.
#[derive(Clone, Copy, Debug, PartialEq, Eq)]
pub struct SelectionState {
    pub selected_index: usize,
    pub last_key: Option<KeyIdentity>,
}

/// The key that ends the session.
pub open spec fn quit_char() -> char {
    'q'
}

pub open spec fn spec_classify(input: KeyInput) -> KeyEvent {
    match input {
        KeyInput::Up => KeyEvent::NavigateUp,
        KeyInput::Down => KeyEvent::NavigateDown,
        KeyInput::Char(c) => if c == quit_char() {
            KeyEvent::Quit
        } else {
            KeyEvent::Other
        },
        KeyInput::Other => KeyEvent::Other,
    }
}

/// One step of the cursor over a list of `len` entries: clamped at both
/// ends, never wrapping.
pub open spec fn spec_navigate(index: usize, key: KeyIdentity, len: usize) -> usize {
    match key {
        KeyIdentity::Down => if index + 1 < len {
            (index + 1) as usize
        } else {
            index
        },
        KeyIdentity::Up => if index > 0 {
            (index - 1) as usize
        } else {
            index
        },
    }
}

/// A navigation key under the debounce rule: acted upon, and remembered,
/// only if it differs from the remembered key.
pub open spec fn spec_press(s: SelectionState, key: KeyIdentity, len: usize) -> SelectionState {
    if s.last_key == Some(key) {
        s
    } else {
        SelectionState { selected_index: spec_navigate(s.selected_index, key, len), last_key: Some(key) }
    }
}

/// The selection with the debounce slot emptied.
pub open spec fn spec_rearmed(s: SelectionState) -> SelectionState {
    SelectionState { selected_index: s.selected_index, last_key: None }
}

/// The selection after one poll has been dispatched.
pub open spec fn spec_apply(s: SelectionState, poll: Poll, len: usize) -> SelectionState {
    match poll {
        Poll::Timeout => spec_rearmed(s),
        Poll::Unrelated => s,
        Poll::Key(KeyEvent::NavigateUp) => spec_press(s, KeyIdentity::Up, len),
        Poll::Key(KeyEvent::NavigateDown) => spec_press(s, KeyIdentity::Down, len),
        Poll::Key(KeyEvent::Quit) => s,
        Poll::Key(KeyEvent::Other) => spec_rearmed(s),
    }
}

pub open spec fn spec_quits(poll: Poll) -> bool {
    poll == Poll::Key(KeyEvent::Quit)
}

/// The selection after a sequence of polls, dispatched in order up to and
/// including the first quit key.
pub open spec fn spec_run(s: SelectionState, polls: Seq<Poll>, len: usize) -> SelectionState
    decreases polls.len(),
{
    if polls.len() == 0 || spec_quits(polls[0]) {
        s
    } else {
        spec_run(spec_apply(s, polls[0], len), polls.drop_first(), len)
    }
}

/// How many polls of a sequence are dispatched: all of them, or those up to
/// and including the first quit key.
pub open spec fn spec_consumed(polls: Seq<Poll>) -> nat
    decreases polls.len(),
{
    if polls.len() == 0 {
        0
    } else if spec_quits(polls[0]) {
        1
    } else {
        1 + spec_consumed(polls.drop_first())
    }
}

/// `n` polls in a row that all yield the same thing.
pub open spec fn spec_repeated(poll: Poll, n: nat) -> Seq<Poll> {
    Seq::new(n, |i: int| poll)
}

pub open spec fn spec_nav_poll(key: KeyIdentity) -> Poll {
    match key {
        KeyIdentity::Up => Poll::Key(KeyEvent::NavigateUp),
        KeyIdentity::Down => Poll::Key(KeyEvent::NavigateDown),
    }
}

/// Classifies a key: the arrows navigate, `q` quits, anything else is
/// another key.
pub fn classify(input: KeyInput) -> (event: KeyEvent)
    ensures
        event == spec_classify(input),
{
    match input {
        KeyInput::Up => KeyEvent::NavigateUp,
        KeyInput::Down => KeyEvent::NavigateDown,
        KeyInput::Char(c) => if c == 'q' {
            KeyEvent::Quit
        } else {
            KeyEvent::Other
        },
        KeyInput::Other => KeyEvent::Other,
    }
}

/// Moves an index one step over a list of `len` entries.
pub fn navigate(index: usize, key: KeyIdentity, len: usize) -> (next: usize)
    ensures
        next == spec_navigate(index, key, len),
        index < len ==> next < len,
        key == KeyIdentity::Up && index == 0 ==> next == 0,
        key == KeyIdentity::Down && index + 1 >= len ==> next == index,
{
    match key {
        KeyIdentity::Down => if len > 0 && index < len - 1 {
            index + 1
        } else {
            index
        },
        KeyIdentity::Up => if index > 0 {
            index - 1
        } else {
            index
        },
    }
}

impl SelectionState {
    /// The index is usable for a list of `len` entries: within the list
    /// where there is one, and at rest on zero where the list is empty.
    pub open spec fn valid_for(self, len: usize) -> bool {
        if len == 0 {
            self.selected_index == 0
        } else {
            self.selected_index < len
        }
    }

    /// The entry that is highlighted, if the list has one there.
    pub open spec fn spec_selected(self, len: usize) -> Option<usize> {
        if self.selected_index < len {
            Some(self.selected_index)
        } else {
            None
        }
    }

    /// The selection at startup: first entry, nothing remembered.
    pub fn new() -> (s: SelectionState)
        ensures
            s.selected_index == 0,
            s.last_key.is_none(),
            forall|len: usize| s.valid_for(len),
    {
        SelectionState { selected_index: 0, last_key: None }
    }

    /// The highlighted entry of a list of `len` entries; `None` where the
    /// list has no entry at the index, as with an empty list.
    pub fn selected(&self, len: usize) -> (sel: Option<usize>)
        ensures
            sel == self.spec_selected(len),
            len == 0 ==> sel.is_none(),
            self.valid_for(len) && len > 0 ==> sel == Some(self.selected_index),
    {
        if self.selected_index < len {
            Some(self.selected_index)
        } else {
            None
        }
    }

    /// A navigation key arrives: acted upon unless it repeats the
    /// remembered key.
    pub fn press(&mut self, key: KeyIdentity, len: usize)
        ensures
            *final(self) == spec_press(*old(self), key, len),
            old(self).valid_for(len) ==> final(self).valid_for(len),
    {
        let repeats = match self.last_key {
            Some(KeyIdentity::Up) => key == KeyIdentity::Up,
            Some(KeyIdentity::Down) => key == KeyIdentity::Down,
            None => false,
        };
        if !repeats {
            self.selected_index = navigate(self.selected_index, key, len);
            self.last_key = Some(key);
        }
    }

    /// Dispatches what one poll yielded. The action is `Quit` exactly on a
    /// quit key, which leaves the selection as it was.
    pub fn apply(&mut self, poll: Poll, len: usize) -> (action: Action)
        ensures
            *final(self) == spec_apply(*old(self), poll, len),
            action == Action::Quit <==> spec_quits(poll),
            spec_quits(poll) ==> *final(self) == *old(self),
            old(self).valid_for(len) ==> final(self).valid_for(len),
    {
        match poll {
            Poll::Timeout => {
                self.last_key = None;
                Action::Continue
            },
            Poll::Unrelated => Action::Continue,
            Poll::Key(KeyEvent::NavigateUp) => {
                self.press(KeyIdentity::Up, len);
                Action::Continue
            },
            Poll::Key(KeyEvent::NavigateDown) => {
                self.press(KeyIdentity::Down, len);
                Action::Continue
            },
            Poll::Key(KeyEvent::Quit) => Action::Quit,
            Poll::Key(KeyEvent::Other) => {
                self.last_key = None;
                Action::Continue
            },
        }
    }

    /// Dispatches a recorded sequence of polls in order, stopping after the
    /// first quit key. Returns how many polls were dispatched.
    pub fn run(&mut self, polls: &Vec<Poll>, len: usize) -> (consumed: usize)
        ensures
            *final(self) == spec_run(*old(self), polls@, len),
            consumed == spec_consumed(polls@),
            old(self).valid_for(len) ==> final(self).valid_for(len),
    {
        let mut i: usize = 0;
        let mut quit = false;
        proof {
            assert(polls@.skip(0) =~= polls@);
        }
        while i < polls.len() && !quit
            invariant
                i <= polls.len(),
                old(self).valid_for(len) ==> self.valid_for(len),
                !quit ==> spec_run(*old(self), polls@, len) == spec_run(*self, polls@.skip(i as int), len),
                !quit ==> spec_consumed(polls@) == i + spec_consumed(polls@.skip(i as int)),
                quit ==> spec_run(*old(self), polls@, len) == *self,
                quit ==> spec_consumed(polls@) == i,
            decreases polls.len() - i,
        {
            proof {
                let rest = polls@.skip(i as int);
                assert(rest[0] == polls@[i as int]);
                assert(rest.drop_first() =~= polls@.skip(i as int + 1));
            }
            let action = self.apply(polls[i], len);
            match action {
                Action::Quit => {
                    quit = true;
                },
                Action::Continue => {},
            }
            i = i + 1;
        }
        proof {
            if !quit {
                assert(polls@.skip(i as int).len() == 0);
            }
        }
        i
    }
}

/// However many polls are dispatched, and whatever they yield, a valid
/// selection stays valid: over a non-empty list the index stays within it.
pub proof fn lemma_run_keeps_index_in_bounds(s: SelectionState, polls: Seq<Poll>, len: usize)
    requires
        s.valid_for(len),
    ensures
        spec_run(s, polls, len).valid_for(len),
        len > 0 ==> spec_run(s, polls, len).selected_index < len,
    decreases polls.len(),
{
    if polls.len() > 0 && !spec_quits(polls[0]) {
        lemma_run_keeps_index_in_bounds(spec_apply(s, polls[0], len), polls.drop_first(), len);
    }
}

/// A navigation key that arrives on `n >= 1` polls in a row, with nothing
/// in between, has the effect of arriving once.
pub proof fn lemma_held_key_moves_once(s: SelectionState, key: KeyIdentity, n: nat, len: usize)
    requires
        n >= 1,
    ensures
        spec_run(s, spec_repeated(spec_nav_poll(key), n), len) == spec_press(s, key, len),
    decreases n,
{
    let polls = spec_repeated(spec_nav_poll(key), n);
    let rest = spec_repeated(spec_nav_poll(key), (n - 1) as nat);
    assert(polls.drop_first() =~= rest);
    assert(spec_apply(s, polls[0], len) == spec_press(s, key, len));
    if n > 1 {
        lemma_held_key_moves_once(spec_press(s, key, len), key, (n - 1) as nat, len);
    }
}

/// From the startup selection, holding `Down` for any number of polls moves
/// the cursor by exactly one entry where the list has a second entry, and
/// not at all where it has none.
pub proof fn lemma_held_down_from_start(n: nat, len: usize)
    requires
        n >= 1,
    ensures
        spec_run(
            SelectionState { selected_index: 0, last_key: None },
            spec_repeated(Poll::Key(KeyEvent::NavigateDown), n),
            len,
        ).selected_index == (if len > 1 { 1usize } else { 0usize }),
{
    lemma_held_key_moves_once(SelectionState { selected_index: 0, last_key: None }, KeyIdentity::Down, n, len);
}

/// `Up` on the first entry and `Down` on the last entry leave the index
/// where it is, whatever the debounce slot holds.
pub proof fn lemma_navigation_clamps(s: SelectionState, len: usize)
    ensures
        s.selected_index == 0 ==> spec_press(s, KeyIdentity::Up, len).selected_index == 0,
        s.selected_index + 1 == len ==> spec_press(s, KeyIdentity::Down, len).selected_index
            == s.selected_index,
{
}

/// A poll that times out between two arrivals of the same navigation key
/// re-arms it: the second arrival moves the cursor, and so does the first
/// unless it repeats the key that was remembered before.
pub proof fn lemma_timeout_rearms(s: SelectionState, key: KeyIdentity, len: usize)
    ensures
        spec_run(s, seq![spec_nav_poll(key), Poll::Timeout, spec_nav_poll(key)], len)
            == (SelectionState {
            selected_index: spec_navigate(spec_press(s, key, len).selected_index, key, len),
            last_key: Some(key),
        }),
        s.last_key != Some(key) ==> spec_run(
            s,
            seq![spec_nav_poll(key), Poll::Timeout, spec_nav_poll(key)],
            len,
        ).selected_index == spec_navigate(spec_navigate(s.selected_index, key, len), key, len),
{
    let polls = seq![spec_nav_poll(key), Poll::Timeout, spec_nav_poll(key)];
    let pressed = spec_apply(s, polls[0], len);
    let tail = polls.drop_first();
    let idle = spec_apply(pressed, tail[0], len);
    let last = tail.drop_first();
    let done = spec_apply(idle, last[0], len);
    assert(last.drop_first().len() == 0);
    assert(spec_run(done, last.drop_first(), len) == done);
    assert(spec_run(idle, last, len) == done);
    assert(spec_run(pressed, tail, len) == done);
}

} // verus!
