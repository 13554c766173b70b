//! The decisions of a run over the matched entries, as a state machine.
//!
//! The caller performs each action that a step returns (ask a question,
//! delete an entry) and feeds what came of it back as the next event.

use vstd::prelude::*;

verus! {

/// How a run treats its matched entries, chosen once from the two switches.
#[derive(Clone, Copy, Debug, PartialEq, Eq, Structural)]
pub enum Mode {
    /// Delete every entry without asking.
    Force,
    /// Ask about each entry in turn.
    Interactive,
    /// Ask once about all the entries.
    BatchConfirm,
}

/// `force` wins over `interactive`; with neither, one question covers all.
pub open spec fn mode_of(force: bool, interactive: bool) -> Mode {
    if force {
        Mode::Force
    } else if interactive {
        Mode::Interactive
    } else {
        Mode::BatchConfirm
    }
}

pub fn select_mode(force: bool, interactive: bool) -> (m: Mode)
    ensures
        m == mode_of(force, interactive),
{
    if force {
        Mode::Force
    } else if interactive {
        Mode::Interactive
    } else {
        Mode::BatchConfirm
    }
}

/// How a run ended.
#[derive(Clone, Copy, Debug, PartialEq, Eq, Structural)]
pub enum Outcome {
    /// Nothing matched, so nothing was asked or deleted.
    NoMatches,
    /// Every entry was dealt with.
    Completed,
    /// The single question was declined; nothing was deleted.
    Declined,
    /// Deleting the entry with this index failed; the entries after it were
    /// left alone.
    Aborted(usize),
}

/// Where a session stands.
#[derive(Clone, Copy, Debug, PartialEq, Eq, Structural)]
pub enum Phase {
    /// Not started.
    Ready,
    /// Waiting for the answer to a question.
    Asking,
    /// Waiting for the result of deleting the entry at `next`.
    Deleting,
    /// Over; every further event is ignored.
    Finished(Outcome),
}

/// What the caller reports to a session.
#[derive(Clone, Copy, Debug, PartialEq, Eq, Structural)]
pub enum Event {
    /// Start the run.
    Begin,
    /// The answer to the pending question: `true` agrees.
    Answer(bool),
    /// Whether deleting the pending entry succeeded.
    Deleted(bool),
}

/// What a session asks the caller to do next.
#[derive(Clone, Copy, Debug, PartialEq, Eq, Structural)]
pub enum Action {
    /// Ask whether to delete the entry with this index.
    AskEntry(usize),
    /// Ask once whether to delete all the entries.
    AskAll,
    /// Delete the entry with this index and report the result.
    Delete(usize),
    /// The run is over.
    Finish(Outcome),
    /// The event did not fit the session's phase; nothing changed.
    Wait,
}

/// A run over `total` matched entries, numbered from 0 in the order they
/// matched.
pub struct Session {
    pub mode: Mode,
    pub total: usize,
    pub phase: Phase,
    /// The entry that the pending question or deletion is about.
    pub next: usize,
    /// How many questions have been asked.
    pub prompts: usize,
    /// The entries deleted so far, in the order they were deleted.
    pub deleted: Vec<usize>,
}

/// The mathematical state of a session.
pub struct SessionView {
    pub mode: Mode,
    pub total: nat,
    pub phase: Phase,
    pub next: nat,
    pub prompts: nat,
    pub deleted: Seq<nat>,
}

impl View for Session {
    type V = SessionView;

    open spec fn view(&self) -> SessionView {
        SessionView {
            mode: self.mode,
            total: self.total as nat,
            phase: self.phase,
            next: self.next as nat,
            prompts: self.prompts as nat,
            deleted: self.deleted@.map_values(|i: usize| i as nat),
        }
    }
}

impl SessionView {
    /// The counters stay in range: a question or a deletion is always about
    /// an existing entry, and at most one question is asked per entry.
    pub open spec fn wf(self) -> bool {
        &&& self.total <= usize::MAX
        &&& self.next <= self.total
        &&& self.prompts <= self.next + 1
        &&& (self.phase is Asking || self.phase is Deleting) ==> self.next < self.total
        &&& self.phase is Ready ==> self.prompts == 0
        &&& !(self.mode is Interactive) ==> self.prompts <= 1
    }
}

/// A session that has not started.
pub open spec fn initial(mode: Mode, total: nat) -> SessionView {
    SessionView { mode, total, phase: Phase::Ready, next: 0, prompts: 0, deleted: seq![] }
}

/// The phase a session enters along with an action of a batch deletion.
pub open spec fn phase_after(a: Action) -> Phase {
    match a {
        Action::Finish(o) => Phase::Finished(o),
        _ => Phase::Deleting,
    }
}

/// What follows an attempt to delete entry `next` of `total` in a batch that
/// stops at the first failure.
pub open spec fn batch_next(total: nat, next: nat, succeeded: bool) -> Action {
    if !succeeded {
        Action::Finish(Outcome::Aborted(next as usize))
    } else if next + 1 < total {
        Action::Delete((next + 1) as usize)
    } else {
        Action::Finish(Outcome::Completed)
    }
}

pub open spec fn begin_spec(s: SessionView) -> (SessionView, Action) {
    if s.total == 0 {
        (
            SessionView { phase: Phase::Finished(Outcome::NoMatches), ..s },
            Action::Finish(Outcome::NoMatches),
        )
    } else {
        match s.mode {
            Mode::Force => (SessionView { phase: Phase::Deleting, next: 0, ..s }, Action::Delete(0)),
            Mode::Interactive => (
                SessionView { phase: Phase::Asking, next: 0, prompts: 1, ..s },
                Action::AskEntry(0),
            ),
            Mode::BatchConfirm => (
                SessionView { phase: Phase::Asking, next: 0, prompts: 1, ..s },
                Action::AskAll,
            ),
        }
    }
}

/// In interactive mode, move on to the entry after `next`, or finish.
pub open spec fn advance_spec(s: SessionView) -> (SessionView, Action) {
    if s.next + 1 < s.total {
        (
            SessionView { phase: Phase::Asking, next: s.next + 1, prompts: s.prompts + 1, ..s },
            Action::AskEntry((s.next + 1) as usize),
        )
    } else {
        (
            SessionView { phase: Phase::Finished(Outcome::Completed), ..s },
            Action::Finish(Outcome::Completed),
        )
    }
}

pub open spec fn answer_spec(s: SessionView, yes: bool) -> (SessionView, Action) {
    if s.mode is Interactive {
        if yes {
            (SessionView { phase: Phase::Deleting, ..s }, Action::Delete(s.next as usize))
        } else {
            advance_spec(s)
        }
    } else if yes {
        (SessionView { phase: Phase::Deleting, next: 0, ..s }, Action::Delete(0))
    } else {
        (
            SessionView { phase: Phase::Finished(Outcome::Declined), ..s },
            Action::Finish(Outcome::Declined),
        )
    }
}

pub open spec fn deleted_spec(s: SessionView, ok: bool) -> (SessionView, Action) {
    let s1 = if ok {
        SessionView { deleted: s.deleted.push(s.next), ..s }
    } else {
        s
    };
    if s.mode is Interactive {
        advance_spec(s1)
    } else {
        let a = batch_next(s.total, s.next, ok);
        let next = match a {
            Action::Delete(i) => i as nat,
            _ => s.next,
        };
        (SessionView { phase: phase_after(a), next, ..s1 }, a)
    }
}

/// One step of a session: the state after the event, and the action to take.
/// An event that does not fit the phase changes nothing.
pub open spec fn step_spec(s: SessionView, e: Event) -> (SessionView, Action) {
    match e {
        Event::Begin => if s.phase is Ready {
            begin_spec(s)
        } else {
            (s, Action::Wait)
        },
        Event::Answer(yes) => if s.phase is Asking {
            answer_spec(s, yes)
        } else {
            (s, Action::Wait)
        },
        Event::Deleted(ok) => if s.phase is Deleting {
            deleted_spec(s, ok)
        } else {
            (s, Action::Wait)
        },
    }
}

/// What follows an attempt to delete entry `next` of `total` when the
/// entries are deleted one after another and the first failure stops the
/// rest: the failed entry is reported, else the next entry is deleted, else
/// the batch is complete.
pub fn delete_paths(total: usize, next: usize, succeeded: bool) -> (a: Action)
    requires
        next < total,
    ensures
        a == batch_next(total as nat, next as nat, succeeded),
{
    if !succeeded {
        Action::Finish(Outcome::Aborted(next))
    } else if next + 1 < total {
        Action::Delete(next + 1)
    } else {
        Action::Finish(Outcome::Completed)
    }
}

impl Session {
    pub open spec fn wf(&self) -> bool {
        self@.wf()
    }

    /// A session over `total` entries in the given mode, not yet started.
    pub fn new(mode: Mode, total: usize) -> (s: Session)
        ensures
            s@ == initial(mode, total as nat),
            s.wf(),
    {
        let s = Session { mode, total, phase: Phase::Ready, next: 0, prompts: 0, deleted: Vec::new() };
        assert(s@.deleted =~= Seq::<nat>::empty());
        s
    }

    /// In interactive mode, move on to the entry after `next`, or finish.
    fn advance(&mut self) -> (a: Action)
        requires
            old(self).wf(),
            old(self).mode is Interactive,
            old(self).phase is Asking || old(self).phase is Deleting,
        ensures
            (final(self)@, a) == advance_spec(old(self)@),
            final(self).wf(),
    {
        if self.next + 1 < self.total {
            self.next = self.next + 1;
            self.prompts = self.prompts + 1;
            self.phase = Phase::Asking;
            Action::AskEntry(self.next)
        } else {
            self.phase = Phase::Finished(Outcome::Completed);
            Action::Finish(Outcome::Completed)
        }
    }

    /// Record that the entry at `next` was deleted.
    fn record_deleted(&mut self)
        requires
            old(self).wf(),
        ensures
            final(self)@ == (SessionView { deleted: old(self)@.deleted.push(old(self)@.next), ..old(self)@ }),
    {
        let ghost before = self@;
        self.deleted.push(self.next);
        assert(self@.deleted =~= before.deleted.push(before.next));
    }

    /// Take one event and return the action that follows it.
    pub fn step(&mut self, e: Event) -> (a: Action)
        requires
            old(self).wf(),
        ensures
            (final(self)@, a) == step_spec(old(self)@, e),
            final(self).wf(),
    {
        match e {
            Event::Begin => {
                if !matches!(self.phase, Phase::Ready) {
                    return Action::Wait;
                }
                if self.total == 0 {
                    self.phase = Phase::Finished(Outcome::NoMatches);
                    return Action::Finish(Outcome::NoMatches);
                }
                self.next = 0;
                match self.mode {
                    Mode::Force => {
                        self.phase = Phase::Deleting;
                        Action::Delete(0)
                    },
                    Mode::Interactive => {
                        self.phase = Phase::Asking;
                        self.prompts = 1;
                        Action::AskEntry(0)
                    },
                    Mode::BatchConfirm => {
                        self.phase = Phase::Asking;
                        self.prompts = 1;
                        Action::AskAll
                    },
                }
            },
            Event::Answer(yes) => {
                if !matches!(self.phase, Phase::Asking) {
                    return Action::Wait;
                }
                match self.mode {
                    Mode::Interactive => {
                        if yes {
                            self.phase = Phase::Deleting;
                            Action::Delete(self.next)
                        } else {
                            self.advance()
                        }
                    },
                    _ => {
                        if yes {
                            self.phase = Phase::Deleting;
                            self.next = 0;
                            Action::Delete(0)
                        } else {
                            self.phase = Phase::Finished(Outcome::Declined);
                            Action::Finish(Outcome::Declined)
                        }
                    },
                }
            },
            Event::Deleted(ok) => {
                if !matches!(self.phase, Phase::Deleting) {
                    return Action::Wait;
                }
                if ok {
                    self.record_deleted();
                }
                match self.mode {
                    Mode::Interactive => self.advance(),
                    _ => {
                        let a = delete_paths(self.total, self.next, ok);
                        match a {
                            Action::Delete(i) => {
                                self.next = i;
                                self.phase = Phase::Deleting;
                            },
                            Action::Finish(o) => {
                                self.phase = Phase::Finished(o);
                            },
                            _ => {},
                        }
                        a
                    },
                }
            },
        }
    }
}

} // verus!
