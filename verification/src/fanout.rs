//! One tick of the fan-out engine.
//!
//! A tick walks the notification kinds in order. A kind whose window does not
//! hold the time of day, or that has no subject key, is passed over. For every
//! subject key of the others the payload is fetched once; a fetched payload goes
//! to every recipient of the kind in turn, with a pause after each send. The
//! engine does none of this itself: it names the next action, the caller
//! performs it and reports the event that came of it.

use crate::clock::TimeOfDay;
use crate::config::{all_wf, NotificationConfig, NotificationKind, SubscriptionView};
use vstd::prelude::*;

verus! {

/// Seconds to wait after every send attempt, so that the chat platform's rate
/// limit is kept.
pub const PACING_DELAY_SECS: u64 = 3;

/// What the caller is asked to do next.
#[derive(Clone, Debug, PartialEq, Eq)]
pub enum Action {
    /// Ask the kind's aggregator for the payload of one subject key.
    Fetch { kind: NotificationKind, subject: i32 },
    /// Send the fetched payload to one recipient as a direct message.
    Send { kind: NotificationKind, subject: i32, recipient: u64, text: String },
    /// Sleep for so many seconds.
    Pause { seconds: u64 },
    /// Nothing is left to do in this tick.
    Finish,
}

/// An [`Action`] with its text as a sequence of characters.
pub enum ActionView {
    Fetch { kind: NotificationKind, subject: i32 },
    Send { kind: NotificationKind, subject: i32, recipient: u64, text: Seq<char> },
    Pause { seconds: u64 },
    Finish,
}

impl View for Action {
    type V = ActionView;

    open spec fn view(&self) -> ActionView {
        match *self {
            Action::Fetch { kind, subject } => ActionView::Fetch { kind, subject },
            Action::Send { kind, subject, recipient, text } => ActionView::Send {
                kind,
                subject,
                recipient,
                text: text@,
            },
            Action::Pause { seconds } => ActionView::Pause { seconds },
            Action::Finish => ActionView::Finish,
        }
    }
}

/// What came of the action that the caller performed.
#[derive(Clone, Debug, PartialEq, Eq)]
pub enum Event {
    /// The aggregator produced this payload.
    Fetched(String),
    /// The aggregator failed, for this reason.
    FetchFailed(String),
    /// The platform took the message.
    Sent,
    /// The platform refused the message, for this reason.
    SendFailed(String),
    /// The pause is over.
    Paused,
}

/// An [`Event`] with its text as a sequence of characters.
pub enum EventView {
    Fetched(Seq<char>),
    FetchFailed(Seq<char>),
    Sent,
    SendFailed(Seq<char>),
    Paused,
}

impl View for Event {
    type V = EventView;

    open spec fn view(&self) -> EventView {
        match *self {
            Event::Fetched(text) => EventView::Fetched(text@),
            Event::FetchFailed(reason) => EventView::FetchFailed(reason@),
            Event::Sent => EventView::Sent,
            Event::SendFailed(reason) => EventView::SendFailed(reason@),
            Event::Paused => EventView::Paused,
        }
    }
}

/// How the work for one subject key, or for one subject key and recipient, ended.
#[derive(Clone, Debug, PartialEq, Eq)]
pub enum DispatchOutcome {
    Sent,
    FetchFailed(String),
    SendFailed(String),
}

/// A [`DispatchOutcome`] with its reason as a sequence of characters.
pub enum DispatchOutcomeView {
    Sent,
    FetchFailed(Seq<char>),
    SendFailed(Seq<char>),
}

impl View for DispatchOutcome {
    type V = DispatchOutcomeView;

    open spec fn view(&self) -> DispatchOutcomeView {
        match *self {
            DispatchOutcome::Sent => DispatchOutcomeView::Sent,
            DispatchOutcome::FetchFailed(reason) => DispatchOutcomeView::FetchFailed(reason@),
            DispatchOutcome::SendFailed(reason) => DispatchOutcomeView::SendFailed(reason@),
        }
    }
}

/// An outcome together with what it is the outcome of, for the log. A failed
/// fetch concerns a subject key and no recipient.
#[derive(Clone, Debug, PartialEq, Eq)]
pub struct DispatchRecord {
    pub kind: NotificationKind,
    pub subject: i32,
    pub recipient: Option<u64>,
    pub outcome: DispatchOutcome,
}

/// A [`DispatchRecord`] over a [`DispatchOutcomeView`].
pub struct DispatchRecordView {
    pub kind: NotificationKind,
    pub subject: i32,
    pub recipient: Option<u64>,
    pub outcome: DispatchOutcomeView,
}

impl View for DispatchRecord {
    type V = DispatchRecordView;

    open spec fn view(&self) -> DispatchRecordView {
        DispatchRecordView {
            kind: self.kind,
            subject: self.subject,
            recipient: self.recipient,
            outcome: self.outcome@,
        }
    }
}

/// Which answer the engine is waiting for.
#[derive(Clone, Copy, Debug, PartialEq, Eq, Structural)]
pub enum Stage {
    /// A fetch is out.
    Fetching,
    /// A send is out.
    Sending,
    /// The pause after a send is running.
    Pausing,
    /// The tick is over.
    Finished,
}

/// The first kind at or after position `from` that is due at `now`, or the
/// number of kinds when there is none.
pub open spec fn next_due(kinds: Seq<SubscriptionView>, now: TimeOfDay, from: nat) -> nat
    decreases kinds.len() - from,
{
    if from >= kinds.len() {
        kinds.len()
    } else if kinds[from as int].due(now) {
        from
    } else {
        next_due(kinds, now, from + 1)
    }
}

/// `next_due` finds a due kind at or after `from` and skips none.
pub proof fn lemma_next_due(kinds: Seq<SubscriptionView>, now: TimeOfDay, from: nat)
    requires
        from <= kinds.len(),
    ensures
        from <= next_due(kinds, now, from) <= kinds.len(),
        next_due(kinds, now, from) < kinds.len() ==> kinds[next_due(kinds, now, from) as int].due(
            now,
        ),
        forall|k: int| from <= k < next_due(kinds, now, from) ==> !(#[trigger] kinds[k]).due(now),
    decreases kinds.len() - from,
{
    if from < kinds.len() && !kinds[from as int].due(now) {
        lemma_next_due(kinds, now, from + 1);
    }
}

/// Where a tick stands: the targets and time it works from, the kind, subject
/// key and recipient it has reached, and the payload it is handing out.
pub struct TickState {
    pub kinds: Seq<SubscriptionView>,
    pub now: TimeOfDay,
    pub stage: Stage,
    /// Position of the kind being served; the number of kinds once finished.
    pub kind: nat,
    /// Position of the subject key being served within its kind.
    pub subject: nat,
    /// Position of the recipient being served within the kind's recipient set.
    pub recipient: nat,
    /// The payload fetched for the subject key, while it is being sent.
    pub payload: Seq<char>,
}

impl TickState {
    /// The state that waits for the payload of subject key `subject` of kind `kind`.
    pub open spec fn fetching(
        kinds: Seq<SubscriptionView>,
        now: TimeOfDay,
        kind: nat,
        subject: nat,
    ) -> TickState {
        TickState {
            kinds,
            now,
            stage: Stage::Fetching,
            kind,
            subject,
            recipient: 0,
            payload: Seq::empty(),
        }
    }

    /// The state of a tick that is over.
    pub open spec fn finished(kinds: Seq<SubscriptionView>, now: TimeOfDay) -> TickState {
        TickState {
            kinds,
            now,
            stage: Stage::Finished,
            kind: kinds.len(),
            subject: 0,
            recipient: 0,
            payload: Seq::empty(),
        }
    }

    /// The state that turns to the first due kind at or after position `from`:
    /// it fetches that kind's first subject key, or is finished when no kind is
    /// left.
    pub open spec fn entering(kinds: Seq<SubscriptionView>, now: TimeOfDay, from: nat) -> TickState {
        let kind = next_due(kinds, now, from);
        if kind < kinds.len() {
            TickState::fetching(kinds, now, kind, 0)
        } else {
            TickState::finished(kinds, now)
        }
    }

    /// The state in which a tick at time `now` over `kinds` begins.
    pub open spec fn start(kinds: Seq<SubscriptionView>, now: TimeOfDay) -> TickState {
        TickState::entering(kinds, now, 0)
    }

    /// The kind being served.
    pub open spec fn current(self) -> SubscriptionView {
        self.kinds[self.kind as int]
    }

    /// The position names a subject key of a kind that is due.
    pub open spec fn in_subject(self) -> bool {
        &&& self.kind < self.kinds.len()
        &&& self.current().due(self.now)
        &&& self.subject < self.current().subjects.len()
    }

    /// The state is one that a tick can be in.
    pub open spec fn wf(self) -> bool {
        &&& self.now.valid()
        &&& all_wf(self.kinds)
        &&& match self.stage {
            Stage::Fetching => self.in_subject() && self.recipient == 0 && self.payload
                == Seq::<char>::empty(),
            Stage::Sending | Stage::Pausing => self.in_subject() && self.recipient
                < self.current().recipients.len(),
            Stage::Finished => self == TickState::finished(self.kinds, self.now),
        }
    }

    /// The action that the caller is asked to perform in this state.
    pub open spec fn pending(self) -> ActionView {
        match self.stage {
            Stage::Fetching => ActionView::Fetch {
                kind: self.current().kind,
                subject: self.current().subjects[self.subject as int],
            },
            Stage::Sending => ActionView::Send {
                kind: self.current().kind,
                subject: self.current().subjects[self.subject as int],
                recipient: self.current().recipients[self.recipient as int],
                text: self.payload,
            },
            Stage::Pausing => ActionView::Pause { seconds: PACING_DELAY_SECS },
            Stage::Finished => ActionView::Finish,
        }
    }

    /// Whether `event` answers the pending action.
    pub open spec fn accepts(self, event: EventView) -> bool {
        match self.stage {
            Stage::Fetching => event is Fetched || event is FetchFailed,
            Stage::Sending => event is Sent || event is SendFailed,
            Stage::Pausing => event is Paused,
            Stage::Finished => false,
        }
    }

    /// The state once the current subject key is done with: the next subject
    /// key of the kind, or else the next due kind, or else the end.
    pub open spec fn after_subject(self) -> TickState {
        if self.subject + 1 < self.current().subjects.len() {
            TickState::fetching(self.kinds, self.now, self.kind, self.subject + 1)
        } else {
            TickState::entering(self.kinds, self.now, self.kind + 1)
        }
    }

    /// The state after `event`. An event that does not answer the pending
    /// action changes nothing.
    pub open spec fn step(self, event: EventView) -> TickState {
        if !self.accepts(event) {
            self
        } else {
            match self.stage {
                Stage::Fetching => match event {
                    EventView::Fetched(text) => if self.current().recipients.len() == 0 {
                        self.after_subject()
                    } else {
                        TickState { stage: Stage::Sending, recipient: 0, payload: text, ..self }
                    },
                    _ => self.after_subject(),
                },
                Stage::Sending => TickState { stage: Stage::Pausing, ..self },
                Stage::Pausing => if self.recipient + 1 < self.current().recipients.len() {
                    TickState { stage: Stage::Sending, recipient: self.recipient + 1, ..self }
                } else {
                    self.after_subject()
                },
                Stage::Finished => self,
            }
        }
    }

    /// What `event` gives the log to record, if anything.
    pub open spec fn outcome(self, event: EventView) -> Option<DispatchRecordView> {
        if !self.accepts(event) {
            None
        } else {
            match event {
                EventView::FetchFailed(reason) => Some(
                    DispatchRecordView {
                        kind: self.current().kind,
                        subject: self.current().subjects[self.subject as int],
                        recipient: None,
                        outcome: DispatchOutcomeView::FetchFailed(reason),
                    },
                ),
                EventView::Sent => Some(
                    DispatchRecordView {
                        kind: self.current().kind,
                        subject: self.current().subjects[self.subject as int],
                        recipient: Some(self.current().recipients[self.recipient as int]),
                        outcome: DispatchOutcomeView::Sent,
                    },
                ),
                EventView::SendFailed(reason) => Some(
                    DispatchRecordView {
                        kind: self.current().kind,
                        subject: self.current().subjects[self.subject as int],
                        recipient: Some(self.current().recipients[self.recipient as int]),
                        outcome: DispatchOutcomeView::SendFailed(reason),
                    },
                ),
                _ => None,
            }
        }
    }
}

/// A tick begins in a state that a tick can be in.
pub proof fn lemma_start_wf(kinds: Seq<SubscriptionView>, now: TimeOfDay)
    requires
        all_wf(kinds),
        now.valid(),
    ensures
        TickState::start(kinds, now).wf(),
{
    lemma_next_due(kinds, now, 0);
}

/// Every event leaves the tick in a state that a tick can be in.
pub proof fn lemma_step_wf(state: TickState, event: EventView)
    requires
        state.wf(),
    ensures
        state.step(event).wf(),
{
    if state.accepts(event) {
        lemma_next_due(state.kinds, state.now, state.kind + 1);
    }
}

/// The view of an optional record.
pub open spec fn record_view(record: Option<DispatchRecord>) -> Option<DispatchRecordView> {
    match record {
        Some(record) => Some(record@),
        None => None,
    }
}

/// The engine's place in the tick.
#[derive(Clone, Copy, Debug)]
struct Cursor {
    stage: Stage,
    kind: usize,
    subject: usize,
    recipient: usize,
}

/// The state that a cursor stands for. The payload counts only while it is
/// being sent.
spec fn assemble(
    kinds: Seq<SubscriptionView>,
    now: TimeOfDay,
    cursor: Cursor,
    payload: Seq<char>,
) -> TickState {
    TickState {
        kinds,
        now,
        stage: cursor.stage,
        kind: cursor.kind as nat,
        subject: cursor.subject as nat,
        recipient: cursor.recipient as nat,
        payload: if cursor.stage == Stage::Sending || cursor.stage == Stage::Pausing {
            payload
        } else {
            Seq::empty()
        },
    }
}

/// The first kind at or after position `from` that is due at `now`.
fn seek(config: &NotificationConfig, now: TimeOfDay, from: usize) -> (kind: usize)
    requires
        from <= config@.len(),
    ensures
        kind == next_due(config@, now, from as nat),
        kind <= config@.len(),
        all_wf(config@),
{
    let mut kind: usize = from;
    while kind < config.len()
        invariant
            from <= kind <= config@.len(),
            next_due(config@, now, from as nat) == next_due(config@, now, kind as nat),
        decreases config@.len() - kind,
    {
        if config.kind_at(kind).is_due(now) {
            return kind;
        }
        kind += 1;
    }
    kind
}

/// The cursor that turns to the first due kind at or after position `from`.
fn enter(config: &NotificationConfig, now: TimeOfDay, from: usize) -> (cursor: Cursor)
    requires
        from <= config@.len(),
    ensures
        assemble(config@, now, cursor, Seq::empty()) == TickState::entering(
            config@,
            now,
            from as nat,
        ),
        all_wf(config@),
{
    let kind: usize = seek(config, now, from);
    if kind < config.len() {
        Cursor { stage: Stage::Fetching, kind, subject: 0, recipient: 0 }
    } else {
        Cursor { stage: Stage::Finished, kind, subject: 0, recipient: 0 }
    }
}

/// One tick of the fan-out engine over a snapshot of the notification targets.
#[derive(Debug)]
pub struct FanOut {
    config: NotificationConfig,
    now: TimeOfDay,
    cursor: Cursor,
    payload: String,
}

impl View for FanOut {
    type V = TickState;

    closed spec fn view(&self) -> TickState {
        assemble(self.config@, self.now, self.cursor, self.payload@)
    }
}

impl FanOut {
    #[verifier::type_invariant]
    closed spec fn well_placed(self) -> bool {
        self@.wf()
    }

    /// Begins the tick that serves `config` at the time of day `now`.
    pub fn start(config: NotificationConfig, now: TimeOfDay) -> (tick: FanOut)
        ensures
            tick@ == TickState::start(config@, now),
            tick@.wf(),
    {
        let cursor: Cursor = enter(&config, now, 0);
        proof {
            use_type_invariant(now);
            lemma_start_wf(config@, now);
        }
        FanOut { config, now, cursor, payload: String::new() }
    }

    /// Whether the tick is over.
    pub fn is_finished(&self) -> (finished: bool)
        ensures
            finished == (self@.stage == Stage::Finished),
            finished == (self@.pending() == ActionView::Finish),
            self@.wf(),
    {
        proof {
            use_type_invariant(self);
        }
        match self.cursor.stage {
            Stage::Finished => true,
            _ => false,
        }
    }

    /// The action that the caller is asked to perform next. It stays the same
    /// until an event answers it.
    pub fn pending(&self) -> (action: Action)
        ensures
            action@ == self@.pending(),
            self@.wf(),
    {
        proof {
            use_type_invariant(self);
        }
        match self.cursor.stage {
            Stage::Fetching => {
                let current = self.config.kind_at(self.cursor.kind);
                Action::Fetch {
                    kind: current.kind(),
                    subject: current.subjects()[self.cursor.subject],
                }
            },
            Stage::Sending => {
                let current = self.config.kind_at(self.cursor.kind);
                Action::Send {
                    kind: current.kind(),
                    subject: current.subjects()[self.cursor.subject],
                    recipient: current.recipients()[self.cursor.recipient],
                    text: self.payload.clone(),
                }
            },
            Stage::Pausing => Action::Pause { seconds: PACING_DELAY_SECS },
            Stage::Finished => Action::Finish,
        }
    }

    /// The cursor once the current subject key is done with.
    fn past_subject(&self) -> (cursor: Cursor)
        requires
            self@.in_subject(),
        ensures
            assemble(self@.kinds, self@.now, cursor, Seq::empty()) == self@.after_subject(),
    {
        let here: Cursor = self.cursor;
        let kinds: usize = self.config.len();
        let subjects: usize = self.config.kind_at(here.kind).subjects().len();
        if here.subject + 1 < subjects {
            Cursor { stage: Stage::Fetching, kind: here.kind, subject: here.subject + 1, recipient: 0 }
        } else {
            enter(&self.config, self.now, here.kind + 1)
        }
    }

    /// Takes in what came of the pending action and moves on to the next one.
    ///
    /// An event that answers the pending action is accepted: the tick moves as
    /// `TickState::step` says, and a failed fetch and every send attempt hand
    /// back a record for the log. Any other event is handed back unused and
    /// changes nothing.
    pub fn advance(&mut self, event: Event) -> (result: Result<Option<DispatchRecord>, Event>)
        ensures
            final(self)@ == old(self)@.step(event@),
            final(self)@.wf(),
            match result {
                Ok(record) => old(self)@.accepts(event@) && record_view(record) == old(
                    self,
                )@.outcome(event@),
                Err(unused) => !old(self)@.accepts(event@) && unused == event,
            },
    {
        proof {
            use_type_invariant(&*self);
            lemma_step_wf(self@, event@);
        }
        let here: Cursor = self.cursor;
        match here.stage {
            Stage::Fetching => match event {
                Event::Fetched(text) => {
                    if self.config.kind_at(here.kind).recipients().len() == 0 {
                        let next: Cursor = self.past_subject();
                        self.cursor = next;
                    } else {
                        self.payload = text;
                        self.cursor = Cursor {
                            stage: Stage::Sending,
                            kind: here.kind,
                            subject: here.subject,
                            recipient: 0,
                        };
                    }
                    Ok(None)
                },
                Event::FetchFailed(reason) => {
                    let current = self.config.kind_at(here.kind);
                    let record = DispatchRecord {
                        kind: current.kind(),
                        subject: current.subjects()[here.subject],
                        recipient: None,
                        outcome: DispatchOutcome::FetchFailed(reason),
                    };
                    let next: Cursor = self.past_subject();
                    self.cursor = next;
                    Ok(Some(record))
                },
                unused => Err(unused),
            },
            Stage::Sending => {
                let outcome: DispatchOutcome = match event {
                    Event::Sent => DispatchOutcome::Sent,
                    Event::SendFailed(reason) => DispatchOutcome::SendFailed(reason),
                    unused => {
                        return Err(unused);
                    },
                };
                let current = self.config.kind_at(here.kind);
                let record = DispatchRecord {
                    kind: current.kind(),
                    subject: current.subjects()[here.subject],
                    recipient: Some(current.recipients()[here.recipient]),
                    outcome,
                };
                self.cursor = Cursor {
                    stage: Stage::Pausing,
                    kind: here.kind,
                    subject: here.subject,
                    recipient: here.recipient,
                };
                Ok(Some(record))
            },
            Stage::Pausing => match event {
                Event::Paused => {
                    let recipients: usize = self.config.kind_at(here.kind).recipients().len();
                    if here.recipient + 1 < recipients {
                        self.cursor = Cursor {
                            stage: Stage::Sending,
                            kind: here.kind,
                            subject: here.subject,
                            recipient: here.recipient + 1,
                        };
                    } else {
                        let next: Cursor = self.past_subject();
                        self.cursor = next;
                    }
                    Ok(None)
                },
                unused => Err(unused),
            },
            Stage::Finished => Err(event),
        }
    }
}

} // verus!
