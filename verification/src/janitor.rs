//! The scratch-directory janitor.
//!
//! A sweep removes the directory in which commands leave their generated
//! attachments and makes it anew. Removal is best effort; creation is not: a
//! sweep that could not create the directory has failed. The janitor names the
//! next step, the caller carries it out on the file system and reports back.

use vstd::prelude::*;

verus! {

/// What the caller is asked to do to the scratch directory.
#[derive(Clone, Copy, Debug, PartialEq, Eq, Structural)]
pub enum SweepAction {
    /// Find out whether the directory exists.
    Probe,
    /// Remove the directory and all that is in it.
    Remove,
    /// Create the directory, and its parents where they are missing.
    Create,
    /// The sweep is over.
    Finish,
}

/// What came of the step that the caller carried out.
#[derive(Clone, Debug, PartialEq, Eq)]
pub enum SweepEvent {
    /// The directory exists.
    Found,
    /// There is no such directory.
    Missing,
    /// The directory is gone.
    Removed,
    /// The directory could not be removed, for this reason.
    RemoveFailed(String),
    /// The directory is there.
    Created,
    /// The directory could not be created, for this reason.
    CreateFailed(String),
}

/// A [`SweepEvent`] with its reason as a sequence of characters.
pub enum SweepEventView {
    Found,
    Missing,
    Removed,
    RemoveFailed(Seq<char>),
    Created,
    CreateFailed(Seq<char>),
}

impl View for SweepEvent {
    type V = SweepEventView;

    open spec fn view(&self) -> SweepEventView {
        match *self {
            SweepEvent::Found => SweepEventView::Found,
            SweepEvent::Missing => SweepEventView::Missing,
            SweepEvent::Removed => SweepEventView::Removed,
            SweepEvent::RemoveFailed(reason) => SweepEventView::RemoveFailed(reason@),
            SweepEvent::Created => SweepEventView::Created,
            SweepEvent::CreateFailed(reason) => SweepEventView::CreateFailed(reason@),
        }
    }
}

/// What a sweep gives the log to record.
#[derive(Clone, Debug, PartialEq, Eq)]
pub enum SweepNote {
    /// The old directory could not be removed; the sweep goes on.
    RemovalFailed(String),
    /// The directory could not be created: whoever writes into it will fail
    /// until a later sweep succeeds.
    JanitorError(String),
}

/// A [`SweepNote`] with its reason as a sequence of characters.
pub enum SweepNoteView {
    RemovalFailed(Seq<char>),
    JanitorError(Seq<char>),
}

impl View for SweepNote {
    type V = SweepNoteView;

    open spec fn view(&self) -> SweepNoteView {
        match *self {
            SweepNote::RemovalFailed(reason) => SweepNoteView::RemovalFailed(reason@),
            SweepNote::JanitorError(reason) => SweepNoteView::JanitorError(reason@),
        }
    }
}

/// Where a sweep stands.
#[derive(Clone, Copy, Debug, PartialEq, Eq, Structural)]
pub enum SweepStage {
    /// Waiting to hear whether the directory exists.
    Probing,
    /// Waiting for the removal of the directory that was found.
    Removing,
    /// Waiting for the creation of the directory.
    Creating,
    /// Over: the directory was created.
    Done,
    /// Over: the directory could not be created.
    Failed,
}

impl SweepStage {
    /// The step that the caller is asked to carry out at this stage.
    pub open spec fn pending(self) -> SweepAction {
        match self {
            SweepStage::Probing => SweepAction::Probe,
            SweepStage::Removing => SweepAction::Remove,
            SweepStage::Creating => SweepAction::Create,
            SweepStage::Done | SweepStage::Failed => SweepAction::Finish,
        }
    }

    /// Whether `event` answers the pending step.
    pub open spec fn accepts(self, event: SweepEventView) -> bool {
        match self {
            SweepStage::Probing => event is Found || event is Missing,
            SweepStage::Removing => event is Removed || event is RemoveFailed,
            SweepStage::Creating => event is Created || event is CreateFailed,
            SweepStage::Done | SweepStage::Failed => false,
        }
    }

    /// The stage after `event`. Only a directory that was found is removed, and
    /// the directory is created whatever came of the removal. An event that does
    /// not answer the pending step changes nothing.
    pub open spec fn step(self, event: SweepEventView) -> SweepStage {
        if !self.accepts(event) {
            self
        } else {
            match event {
                SweepEventView::Found => SweepStage::Removing,
                SweepEventView::Missing => SweepStage::Creating,
                SweepEventView::Removed => SweepStage::Creating,
                SweepEventView::RemoveFailed(_) => SweepStage::Creating,
                SweepEventView::Created => SweepStage::Done,
                SweepEventView::CreateFailed(_) => SweepStage::Failed,
            }
        }
    }

    /// What `event` gives the log to record, if anything.
    pub open spec fn note(self, event: SweepEventView) -> Option<SweepNoteView> {
        if !self.accepts(event) {
            None
        } else {
            match event {
                SweepEventView::RemoveFailed(reason) => Some(SweepNoteView::RemovalFailed(reason)),
                SweepEventView::CreateFailed(reason) => Some(SweepNoteView::JanitorError(reason)),
                _ => None,
            }
        }
    }
}

/// The view of an optional note.
pub open spec fn note_view(note: Option<SweepNote>) -> Option<SweepNoteView> {
    match note {
        Some(note) => Some(note@),
        None => None,
    }
}

/// One sweep of the scratch directory.
#[derive(Debug)]
pub struct Sweep {
    stage: SweepStage,
}

impl View for Sweep {
    type V = SweepStage;

    closed spec fn view(&self) -> SweepStage {
        self.stage
    }
}

impl Sweep {
    /// A sweep that has yet to look at the directory.
    pub fn start() -> (sweep: Sweep)
        ensures
            sweep@ == SweepStage::Probing,
    {
        Sweep { stage: SweepStage::Probing }
    }

    /// Where the sweep stands.
    pub fn stage(&self) -> (stage: SweepStage)
        ensures
            stage == self@,
    {
        self.stage
    }

    /// The step that the caller is asked to carry out next.
    pub fn pending(&self) -> (action: SweepAction)
        ensures
            action == self@.pending(),
    {
        match self.stage {
            SweepStage::Probing => SweepAction::Probe,
            SweepStage::Removing => SweepAction::Remove,
            SweepStage::Creating => SweepAction::Create,
            SweepStage::Done => SweepAction::Finish,
            SweepStage::Failed => SweepAction::Finish,
        }
    }

    /// Takes in what came of the pending step and moves on to the next one.
    ///
    /// An event that answers the pending step is accepted, and a failure hands
    /// back a note for the log. Any other event is handed back unused and
    /// changes nothing.
    pub fn advance(&mut self, event: SweepEvent) -> (result: Result<Option<SweepNote>, SweepEvent>)
        ensures
            final(self)@ == old(self)@.step(event@),
            match result {
                Ok(note) => old(self)@.accepts(event@) && note_view(note) == old(self)@.note(
                    event@,
                ),
                Err(unused) => !old(self)@.accepts(event@) && unused == event,
            },
    {
        match self.stage {
            SweepStage::Probing => match event {
                SweepEvent::Found => {
                    self.stage = SweepStage::Removing;
                    Ok(None)
                },
                SweepEvent::Missing => {
                    self.stage = SweepStage::Creating;
                    Ok(None)
                },
                unused => Err(unused),
            },
            SweepStage::Removing => match event {
                SweepEvent::Removed => {
                    self.stage = SweepStage::Creating;
                    Ok(None)
                },
                SweepEvent::RemoveFailed(reason) => {
                    self.stage = SweepStage::Creating;
                    Ok(Some(SweepNote::RemovalFailed(reason)))
                },
                unused => Err(unused),
            },
            SweepStage::Creating => match event {
                SweepEvent::Created => {
                    self.stage = SweepStage::Done;
                    Ok(None)
                },
                SweepEvent::CreateFailed(reason) => {
                    self.stage = SweepStage::Failed;
                    Ok(Some(SweepNote::JanitorError(reason)))
                },
                unused => Err(unused),
            },
            SweepStage::Done => Err(event),
            SweepStage::Failed => Err(event),
        }
    }
}

/// The stage that a sweep has reached once `events` were reported, in order.
pub open spec fn sweep_run(stage: SweepStage, events: Seq<SweepEventView>) -> SweepStage
    decreases events.len(),
{
    if events.len() == 0 {
        stage
    } else {
        sweep_run(stage, events.drop_last()).step(events.last())
    }
}

/// Whether `events` report, at a moment at which the sweep had asked for the
/// creation, that it was done.
pub open spec fn creation_reported(stage: SweepStage, events: Seq<SweepEventView>) -> bool {
    exists|i: int|
        0 <= i < events.len() && sweep_run(stage, events.take(i)) == SweepStage::Creating
            && events[i] is Created
}

/// Whether `events` report, at a moment at which the sweep had asked for the
/// creation, that it failed.
pub open spec fn creation_failure_reported(stage: SweepStage, events: Seq<SweepEventView>) -> bool {
    exists|i: int|
        0 <= i < events.len() && sweep_run(stage, events.take(i)) == SweepStage::Creating
            && events[i] is CreateFailed
}

/// A failed removal does not stop the sweep: the directory is created next, as
/// after a removal that succeeded or a directory that was not there, and the
/// failure is handed out for the log.
pub proof fn lemma_removal_is_best_effort(reason: Seq<char>)
    ensures
        SweepStage::Removing.step(SweepEventView::RemoveFailed(reason)).pending()
            == SweepAction::Create,
        SweepStage::Removing.step(SweepEventView::Removed).pending() == SweepAction::Create,
        SweepStage::Probing.step(SweepEventView::Missing).pending() == SweepAction::Create,
        SweepStage::Probing.step(SweepEventView::Found).pending() == SweepAction::Remove,
        SweepStage::Removing.note(SweepEventView::RemoveFailed(reason)) == Some(
            SweepNoteView::RemovalFailed(reason),
        ),
{
}

/// Creation is mandatory: whatever is reported, a sweep ends well only when
/// the creation that it asked for was reported as done, and ends as failed only
/// when that creation was reported as failed.
pub proof fn lemma_sweep_ends_with_creation(events: Seq<SweepEventView>)
    ensures
        sweep_run(SweepStage::Probing, events) == SweepStage::Done ==> creation_reported(
            SweepStage::Probing,
            events,
        ),
        sweep_run(SweepStage::Probing, events) == SweepStage::Failed
            ==> creation_failure_reported(SweepStage::Probing, events),
    decreases events.len(),
{
    let start = SweepStage::Probing;
    let end = sweep_run(start, events);
    if events.len() > 0 && (end == SweepStage::Done || end == SweepStage::Failed) {
        let front = events.drop_last();
        if sweep_run(start, front) == end {
            lemma_sweep_ends_with_creation(front);
            if end == SweepStage::Done {
                let i = choose|i: int|
                    0 <= i < front.len() && sweep_run(start, front.take(i)) == SweepStage::Creating
                        && front[i] is Created;
                assert(events.take(i) == front.take(i));
                assert(events[i] == front[i]);
            } else {
                let i = choose|i: int|
                    0 <= i < front.len() && sweep_run(start, front.take(i)) == SweepStage::Creating
                        && front[i] is CreateFailed;
                assert(events.take(i) == front.take(i));
                assert(events[i] == front[i]);
            }
        } else {
            let i = events.len() - 1;
            assert(events.take(i) == front);
        }
    }
}

/// A sweep is over after three answers at most: no run takes more, and a sweep
/// that is not over is waiting for an answer that it will take.
pub proof fn lemma_sweep_ends(events: Seq<SweepEventView>)
    ensures
        answers_taken(SweepStage::Probing, events) <= 3,
        sweep_run(SweepStage::Probing, events).pending() != SweepAction::Finish ==> exists|
            answer: SweepEventView,
        | sweep_run(SweepStage::Probing, events).accepts(answer),
{
    lemma_answers_taken(events);
    let stage = sweep_run(SweepStage::Probing, events);
    match stage {
        SweepStage::Probing => {
            assert(stage.accepts(SweepEventView::Missing));
        },
        SweepStage::Removing => {
            assert(stage.accepts(SweepEventView::Removed));
        },
        SweepStage::Creating => {
            assert(stage.accepts(SweepEventView::Created));
        },
        _ => {},
    }
}

/// How many of `events` a sweep took as answers while they were reported to it.
pub open spec fn answers_taken(stage: SweepStage, events: Seq<SweepEventView>) -> nat
    decreases events.len(),
{
    if events.len() == 0 {
        0
    } else {
        let taken: nat = if sweep_run(stage, events.drop_last()).accepts(events.last()) {
            1
        } else {
            0
        };
        answers_taken(stage, events.drop_last()) + taken
    }
}

/// The answers that a sweep at `stage` can still take.
spec fn answers_left(stage: SweepStage) -> nat {
    match stage {
        SweepStage::Probing => 3,
        SweepStage::Removing => 2,
        SweepStage::Creating => 1,
        SweepStage::Done | SweepStage::Failed => 0,
    }
}

/// The answers taken and the answers left never exceed three.
proof fn lemma_answers_taken(events: Seq<SweepEventView>)
    ensures
        answers_taken(SweepStage::Probing, events) + answers_left(
            sweep_run(SweepStage::Probing, events),
        ) <= 3,
    decreases events.len(),
{
    if events.len() > 0 {
        lemma_answers_taken(events.drop_last());
    }
}

} // verus!
