//! Taking a container's filesystem down, as a state machine: the layout is
//! unmounted, the mount registry is read, the layout is unmounted again for
//! as long as the registry lists the overlay, and then its directories are
//! removed. A failed unmount at the start does not keep the directories from
//! being removed; it is what the teardown ends in.
//!
//! The machine decides; whoever drives it performs the action that it hands
//! out and reports what came of it as the next event.

use vstd::prelude::*;
use crate::error::Error;
use crate::error::ErrorView;
use crate::error::custom;
use crate::filesystem::DeleteStep;
use crate::filesystem::Filesystem;
use crate::filesystem::FilesystemView;
use crate::filesystem::FsAction;
use crate::filesystem::FsActionView;
use crate::mount::MTab;
use crate::mount::MountingPointView;
use crate::mount::lists;

verus! {

/// Where a teardown is.
#[derive(Debug, Clone, Copy, PartialEq, Eq, Structural)]
pub enum TeardownState {
    /// Nothing has happened yet.
    Idle,
    /// The layout is being unmounted for the first time.
    Unmounting,
    /// The mount registry is being read.
    Reading,
    /// The layout is being unmounted again, because the registry listed the
    /// overlay.
    Round,
    /// The directories of the layout are being removed.
    Removing,
    /// The teardown has ended.
    Finished,
}

/// What came of the action that the teardown handed out last.
#[derive(Debug)]
pub enum TeardownEvent {
    /// The teardown is to begin.
    Begin,
    /// The action was performed.
    Done,
    /// The action failed with this error.
    Failed(Error),
    /// The mount registry, read now.
    Registry(MTab),
}

/// Mathematical model of a [`TeardownEvent`].
pub enum TeardownEventView {
    Begin,
    Done,
    Failed(ErrorView),
    Registry(Seq<MountingPointView>),
}

impl View for TeardownEvent {
    type V = TeardownEventView;

    open spec fn view(&self) -> TeardownEventView {
        match self {
            TeardownEvent::Begin => TeardownEventView::Begin,
            TeardownEvent::Done => TeardownEventView::Done,
            TeardownEvent::Failed(e) => TeardownEventView::Failed(e@),
            TeardownEvent::Registry(table) => TeardownEventView::Registry(table@),
        }
    }
}

/// What the driver is to do next.
#[derive(Debug, PartialEq)]
pub enum TeardownAction {
    /// Perform the filesystem actions that are due, in order, up to the
    /// first failure.
    Filesystem(Vec<FsAction>),
    /// Read the mount registry.
    ReadRegistry,
    /// The layout is gone: return to the caller.
    Return,
    /// The teardown ends in this error.
    Fail(Error),
}

/// Mathematical model of a [`TeardownAction`].
pub enum TeardownActionView {
    Filesystem(Seq<FsActionView>),
    ReadRegistry,
    Return,
    Fail(ErrorView),
}

impl View for TeardownAction {
    type V = TeardownActionView;

    open spec fn view(&self) -> TeardownActionView {
        match self {
            TeardownAction::Filesystem(plan) => TeardownActionView::Filesystem(plan.deep_view()),
            TeardownAction::ReadRegistry => TeardownActionView::ReadRegistry,
            TeardownAction::Return => TeardownActionView::Return,
            TeardownAction::Fail(e) => TeardownActionView::Fail(e@),
        }
    }
}

/// The teardown of one layout: where it is, and the error of the first
/// unmount, if that failed.
#[derive(Debug, PartialEq)]
pub struct Teardown {
    fs: Filesystem,
    state: TeardownState,
    failure: Option<Error>,
}

/// Mathematical model of a [`Teardown`].
pub struct TeardownView {
    pub fs: FilesystemView,
    pub state: TeardownState,
    pub failure: Option<ErrorView>,
}

impl View for Teardown {
    type V = TeardownView;

    closed spec fn view(&self) -> TeardownView {
        TeardownView {
            fs: self.fs@,
            state: self.state,
            failure: match self.failure {
                Some(e) => Some(e@),
                None => None,
            },
        }
    }
}

/// The error that a teardown ends in: the one that it has kept, else the
/// one that ends it.
pub open spec fn first_error(kept: Option<ErrorView>, last: ErrorView) -> ErrorView {
    match kept {
        Some(e) => e,
        None => last,
    }
}

impl TeardownView {
    /// This teardown in another state.
    pub open spec fn at(self, state: TeardownState) -> TeardownView {
        TeardownView { state, ..self }
    }

    /// This teardown at its end, with no error kept.
    pub open spec fn ended(self) -> TeardownView {
        TeardownView { state: TeardownState::Finished, failure: None, ..self }
    }

    /// The teardown after an event, and the action that the event calls for.
    pub open spec fn next(self, event: TeardownEventView) -> (TeardownView, TeardownActionView) {
        match (self.state, event) {
            (TeardownState::Idle, TeardownEventView::Begin) => (
                self.at(TeardownState::Unmounting),
                TeardownActionView::Filesystem(self.fs.umount_plan()),
            ),
            (TeardownState::Unmounting, TeardownEventView::Done) => (
                self.at(TeardownState::Reading),
                TeardownActionView::ReadRegistry,
            ),
            (TeardownState::Unmounting, TeardownEventView::Failed(e)) => (
                TeardownView { state: TeardownState::Reading, failure: Some(e), ..self },
                TeardownActionView::ReadRegistry,
            ),
            (TeardownState::Reading, TeardownEventView::Registry(table)) => if lists(
                table,
                self.fs.overlay_query(),
            ) {
                (self.at(TeardownState::Round), TeardownActionView::Filesystem(self.fs.umount_plan()))
            } else {
                (
                    self.at(TeardownState::Removing),
                    TeardownActionView::Filesystem(self.fs.remove_plan()),
                )
            },
            (TeardownState::Round, TeardownEventView::Done) => (
                self.at(TeardownState::Reading),
                TeardownActionView::ReadRegistry,
            ),
            (TeardownState::Removing, TeardownEventView::Done) => (
                self.ended(),
                match self.failure {
                    Some(e) => TeardownActionView::Fail(e),
                    None => TeardownActionView::Return,
                },
            ),
            (state, TeardownEventView::Failed(e)) => if state == TeardownState::Reading || state
                == TeardownState::Round || state == TeardownState::Removing {
                (self.ended(), TeardownActionView::Fail(first_error(self.failure, e)))
            } else {
                (self, TeardownActionView::Fail(custom("Unexpected event"@)))
            },
            _ => (self, TeardownActionView::Fail(custom("Unexpected event"@))),
        }
    }
}

/// Removal follows a failed unmount: on a layout that was never mounted,
/// where the first unmount fails and the registry does not list the overlay,
/// the directories of the layout are still to be removed, and once they are,
/// the teardown ends in the error of the unmount.
pub proof fn lemma_removal_follows_failed_unmount(
    t: TeardownView,
    e: ErrorView,
    table: Seq<MountingPointView>,
)
    requires
        t.state == TeardownState::Idle,
        t.failure is None,
        !lists(table, t.fs.overlay_query()),
    ensures
        ({
            let begun = t.next(TeardownEventView::Begin);
            let read = begun.0.next(TeardownEventView::Failed(e));
            let removal = read.0.next(TeardownEventView::Registry(table));
            let end = removal.0.next(TeardownEventView::Done);
            &&& begun.1 == TeardownActionView::Filesystem(t.fs.umount_plan())
            &&& read.1 == TeardownActionView::ReadRegistry
            &&& removal.1 == TeardownActionView::Filesystem(t.fs.remove_plan())
            &&& end.1 == TeardownActionView::Fail(e)
            &&& end.0.state == TeardownState::Finished
        }),
{
}

/// A teardown removes directories only after it has read the registry and
/// found no overlay listed: the removal is handed out only in answer to a
/// registry, and only to one that does not list the overlay.
pub proof fn lemma_removal_only_without_overlay(t: TeardownView, event: TeardownEventView)
    requires
        t.next(event).1 == TeardownActionView::Filesystem(t.fs.remove_plan()),
    ensures
        t.state == TeardownState::Reading,
        event is Registry,
        !lists(event->Registry_0, t.fs.overlay_query()),
{
    assert(t.fs.remove_plan().len() == 4);
    assert(t.fs.umount_plan().len() == 3);
}

/// A teardown ends well only if nothing failed: it returns only after the
/// removal was performed, with no error kept from the first unmount.
pub proof fn lemma_return_only_without_failure(t: TeardownView, event: TeardownEventView)
    requires
        t.next(event).1 is Return,
    ensures
        t.state == TeardownState::Removing,
        event is Done,
        t.failure is None,
{
}

impl Teardown {
    /// The teardown of the layout of a filesystem, with nothing done yet.
    pub fn new(fs: Filesystem) -> (t: Teardown)
        ensures
            t@ == (TeardownView { fs: fs@, state: TeardownState::Idle, failure: None }),
    {
        Teardown { fs, state: TeardownState::Idle, failure: None }
    }

    /// Where the teardown is.
    pub fn state(&self) -> (s: TeardownState)
        ensures
            s == self@.state,
    {
        self.state
    }

    /// Takes in what came of the last action and hands out the next one.
    pub fn step(&mut self, event: TeardownEvent) -> (action: TeardownAction)
        ensures
            (final(self)@, action@) == old(self)@.next(event@),
    {
        let state: TeardownState = self.state;
        match event {
            TeardownEvent::Begin => {
                if state == TeardownState::Idle {
                    self.state = TeardownState::Unmounting;
                    TeardownAction::Filesystem(self.fs.umount())
                } else {
                    TeardownAction::Fail(Error::new("Unexpected event"))
                }
            },
            TeardownEvent::Done => {
                if state == TeardownState::Unmounting || state == TeardownState::Round {
                    self.state = TeardownState::Reading;
                    TeardownAction::ReadRegistry
                } else if state == TeardownState::Removing {
                    self.state = TeardownState::Finished;
                    match self.failure.take() {
                        Some(e) => TeardownAction::Fail(e),
                        None => TeardownAction::Return,
                    }
                } else {
                    TeardownAction::Fail(Error::new("Unexpected event"))
                }
            },
            TeardownEvent::Failed(e) => {
                if state == TeardownState::Unmounting {
                    self.state = TeardownState::Reading;
                    self.failure = Some(e);
                    TeardownAction::ReadRegistry
                } else if state == TeardownState::Reading || state == TeardownState::Round
                    || state == TeardownState::Removing {
                    self.state = TeardownState::Finished;
                    match self.failure.take() {
                        Some(kept) => TeardownAction::Fail(kept),
                        None => TeardownAction::Fail(e),
                    }
                } else {
                    TeardownAction::Fail(Error::new("Unexpected event"))
                }
            },
            TeardownEvent::Registry(table) => {
                if state == TeardownState::Reading {
                    match self.fs.delete(&table) {
                        DeleteStep::Unmount(plan) => {
                            self.state = TeardownState::Round;
                            TeardownAction::Filesystem(plan)
                        },
                        DeleteStep::Remove(plan) => {
                            self.state = TeardownState::Removing;
                            TeardownAction::Filesystem(plan)
                        },
                    }
                } else {
                    TeardownAction::Fail(Error::new("Unexpected event"))
                }
            },
        }
    }
}

} // verus!
