//! The refresh loop's decisions. Each cycle renders the snapshot, sleeps,
//! clears the screen, checks the exit flag, and refreshes the snapshot only
//! if no exit was asked for. The front end performs each action and reports
//! the flag; the decisions are made here.
use vstd::prelude::*;

verus! {

/// What the front end does next.
#[derive(Clone, Copy, Debug, PartialEq, Eq, Structural)]
pub enum Action {
    Render,
    Sleep,
    Clear,
    Refresh,
    Exit,
}

/// The action after `last`, given whether an interrupt has set the exit flag.
/// The flag is only looked at once the screen has been cleared.
pub open spec fn next_action(last: Action, exit_requested: bool) -> Action {
    match last {
        Action::Render => Action::Sleep,
        Action::Sleep => Action::Clear,
        Action::Clear => if exit_requested {
            Action::Exit
        } else {
            Action::Refresh
        },
        Action::Refresh => Action::Render,
        Action::Exit => Action::Exit,
    }
}

/// Where the loop stands: the action last handed out, and how many render
/// and refresh passes it has handed out so far.
pub struct LoopState {
    pub last: Action,
    pub renders: Ghost<nat>,
    pub refreshes: Ghost<nat>,
}

impl LoopState {
    /// A render pass is never more than one ahead of the refresh passes, and
    /// is one ahead exactly between a render and the next refresh.
    pub open spec fn wf(&self) -> bool {
        match self.last {
            Action::Refresh => self.renders@ == self.refreshes@,
            _ => self.renders@ == self.refreshes@ + 1,
        }
    }

    /// The loop's start: the first action is to render the initial snapshot.
    pub fn new() -> (r: LoopState)
        ensures
            r.last == Action::Render,
            r.renders@ == 1,
            r.refreshes@ == 0,
            r.wf(),
    {
        LoopState { last: Action::Render, renders: Ghost(1), refreshes: Ghost(0) }
    }

    /// Moves to the next action and returns it.
    pub fn advance(&mut self, exit_requested: bool) -> (a: Action)
        requires
            old(self).wf(),
        ensures
            a == next_action(old(self).last, exit_requested),
            final(self).last == a,
            final(self).wf(),
            final(self).renders@ == old(self).renders@ + if a == Action::Render { 1nat } else { 0nat },
            final(self).refreshes@ == old(self).refreshes@ + if a == Action::Refresh { 1nat } else { 0nat },
    {
        let a = match self.last {
            Action::Render => Action::Sleep,
            Action::Sleep => Action::Clear,
            Action::Clear => if exit_requested {
                Action::Exit
            } else {
                Action::Refresh
            },
            Action::Refresh => Action::Render,
            Action::Exit => Action::Exit,
        };
        if a == Action::Render {
            self.renders = Ghost(self.renders@ + 1);
        }
        if a == Action::Refresh {
            self.refreshes = Ghost(self.refreshes@ + 1);
        }
        self.last = a;
        a
    }
}

/// Shutdown: the loop exits only straight after a screen clear, once it
/// exits it stays done, and at any point it has rendered at most once more
/// than it has refreshed.
pub proof fn lemma_shutdown(s: LoopState, exit_requested: bool)
    requires
        s.wf(),
    ensures
        next_action(s.last, exit_requested) == Action::Exit ==> s.last == Action::Clear || s.last == Action::Exit,
        s.last == Action::Clear && exit_requested ==> next_action(s.last, exit_requested) == Action::Exit,
        s.last == Action::Exit ==> next_action(s.last, exit_requested) == Action::Exit,
        s.renders@ <= s.refreshes@ + 1,
{
}

} // verus!
