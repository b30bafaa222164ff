//! The course of a tick: what holds of every run of the fan-out engine,
//! whatever the aggregators and the platform answer and in whatever order the
//! caller reports it.

use crate::clock::TimeOfDay;
use crate::config::{all_wf, SubscriptionView};
use crate::fanout::{
    lemma_next_due, lemma_start_wf, lemma_step_wf, ActionView, DispatchOutcomeView,
    EventView, Stage, TickState, PACING_DELAY_SECS,
};
use vstd::prelude::*;

verus! {

/// The state that `state` has turned into once `events` were reported, in order.
pub open spec fn run(state: TickState, events: Seq<EventView>) -> TickState
    decreases events.len(),
{
    if events.len() == 0 {
        state
    } else {
        run(state, events.drop_last()).step(events.last())
    }
}

/// How many sends the engine has asked for by the time `events` were reported
/// to `state`, the send that `state` itself may be waiting for counted in.
pub open spec fn sends(state: TickState, events: Seq<EventView>) -> nat
    decreases events.len(),
{
    if events.len() == 0 {
        if state.stage == Stage::Sending {
            1
        } else {
            0
        }
    } else {
        let before = run(state, events.drop_last());
        let asked: nat = if before.accepts(events.last()) && before.step(events.last()).stage
            == Stage::Sending {
            1
        } else {
            0
        };
        sends(state, events.drop_last()) + asked
    }
}

/// How many fetches the engine has asked for by the time `events` were
/// reported to `state`, the fetch that `state` itself may be waiting for counted in.
pub open spec fn fetches(state: TickState, events: Seq<EventView>) -> nat
    decreases events.len(),
{
    if events.len() == 0 {
        if state.stage == Stage::Fetching {
            1
        } else {
            0
        }
    } else {
        let before = run(state, events.drop_last());
        let asked: nat = if before.accepts(events.last()) && before.step(events.last()).stage
            == Stage::Fetching {
            1
        } else {
            0
        };
        fetches(state, events.drop_last()) + asked
    }
}

/// The pairs of subject key and recipient of the kinds at or after position
/// `from` that are due at `now`.
pub open spec fn pairs_from(kinds: Seq<SubscriptionView>, now: TimeOfDay, from: nat) -> nat
    decreases kinds.len() - from,
{
    if from >= kinds.len() {
        0
    } else {
        let here: nat = if kinds[from as int].due(now) {
            kinds[from as int].subjects.len() * kinds[from as int].recipients.len()
        } else {
            0
        };
        here + pairs_from(kinds, now, from + 1)
    }
}

/// The subject keys of the kinds at or after position `from` that are due at `now`.
pub open spec fn subjects_from(kinds: Seq<SubscriptionView>, now: TimeOfDay, from: nat) -> nat
    decreases kinds.len() - from,
{
    if from >= kinds.len() {
        0
    } else {
        let here: nat = if kinds[from as int].due(now) {
            kinds[from as int].subjects.len()
        } else {
            0
        };
        here + subjects_from(kinds, now, from + 1)
    }
}

/// How many of `events` the engine took as answers while they were reported to
/// `state`.
pub open spec fn accepted(state: TickState, events: Seq<EventView>) -> nat
    decreases events.len(),
{
    if events.len() == 0 {
        0
    } else {
        let taken: nat = if run(state, events.drop_last()).accepts(events.last()) {
            1
        } else {
            0
        };
        accepted(state, events.drop_last()) + taken
    }
}

/// Whether `state` is at work on subject key `subject` of kind `kind`.
pub open spec fn serves(state: TickState, kind: nat, subject: nat) -> bool {
    state.stage != Stage::Finished && state.kind == kind && state.subject == subject
}

/// Whether `state` has left subject key `subject` of kind `kind` behind.
pub open spec fn is_past(state: TickState, kind: nat, subject: nat) -> bool {
    state.kind > kind || (state.kind == kind && state.subject > subject)
}

/// Every run of a tick stays within the states that a tick can be in, over the
/// targets and the time that it began with.
pub proof fn lemma_run_wf(state: TickState, events: Seq<EventView>)
    requires
        state.wf(),
    ensures
        run(state, events).wf(),
        run(state, events).kinds == state.kinds,
        run(state, events).now == state.now,
    decreases events.len(),
{
    if events.len() > 0 {
        lemma_run_wf(state, events.drop_last());
        lemma_step_wf(run(state, events.drop_last()), events.last());
    }
}

/// A finished tick stays finished: it asks for nothing more, whatever is
/// reported to it.
pub proof fn lemma_finished_is_final(state: TickState, events: Seq<EventView>)
    requires
        state.stage == Stage::Finished,
    ensures
        run(state, events) == state,
        sends(state, events) == 0,
        fetches(state, events) == 0,
        accepted(state, events) == 0,
    decreases events.len(),
{
    if events.len() > 0 {
        lemma_finished_is_final(state, events.drop_last());
    }
}

/// A tick at a time at which no kind is due is over as soon as it begins: it
/// asks for no fetch and no send, whatever is reported to it. No kind is due
/// when the time lies outside every window, and a kind without subject keys is
/// never due.
pub proof fn lemma_nothing_due_nothing_done(
    kinds: Seq<SubscriptionView>,
    now: TimeOfDay,
    events: Seq<EventView>,
)
    requires
        forall|k: int| 0 <= k < kinds.len() ==> !(#[trigger] kinds[k]).due(now),
    ensures
        TickState::start(kinds, now) == TickState::finished(kinds, now),
        run(TickState::start(kinds, now), events).pending() == ActionView::Finish,
        sends(TickState::start(kinds, now), events) == 0,
        fetches(TickState::start(kinds, now), events) == 0,
{
    lemma_next_due(kinds, now, 0);
    lemma_finished_is_final(TickState::start(kinds, now), events);
}

/// Whatever has been reported, a tick that asks for a fetch or a send asks it
/// for a subject key of a kind that is due: the time of day lies inside the
/// kind's window. A kind whose window is closed is never served.
pub proof fn lemma_only_due_kinds_are_served(
    kinds: Seq<SubscriptionView>,
    now: TimeOfDay,
    events: Seq<EventView>,
)
    requires
        all_wf(kinds),
        now.valid(),
    ensures
        ({
            let state = run(TickState::start(kinds, now), events);
            state.stage != Stage::Finished ==> state.kind < kinds.len() && kinds[state.kind as int].due(
                now,
            ) && kinds[state.kind as int].window.contains(now)
        }),
{
    lemma_start_wf(kinds, now);
    lemma_run_wf(TickState::start(kinds, now), events);
}

/// What `state` has before it: the subject keys that it has yet to turn to, the
/// recipients that the payload in hand has yet to go to, and the pairs and
/// subject keys of the kinds that come later.
struct Ahead {
    subjects: int,
    recipients: int,
    per_subject: int,
    later_pairs: int,
    later_subjects: int,
}

/// What `state` has before it.
spec fn ahead(state: TickState) -> Ahead {
    let later_pairs = pairs_from(state.kinds, state.now, state.kind + 1) as int;
    let later_subjects = subjects_from(state.kinds, state.now, state.kind + 1) as int;
    let per_subject = state.current().recipients.len() as int;
    let subjects = state.current().subjects.len() - state.subject - 1;
    match state.stage {
        Stage::Fetching => Ahead {
            subjects,
            recipients: per_subject,
            per_subject,
            later_pairs,
            later_subjects,
        },
        Stage::Sending | Stage::Pausing => Ahead {
            subjects,
            recipients: per_subject - state.recipient - 1,
            per_subject,
            later_pairs,
            later_subjects,
        },
        Stage::Finished => Ahead {
            subjects: 0,
            recipients: 0,
            per_subject: 0,
            later_pairs: 0,
            later_subjects: 0,
        },
    }
}

/// The sends that `state` can still ask for.
spec fn sends_left(state: TickState) -> int {
    let a = ahead(state);
    a.recipients + a.subjects * a.per_subject + a.later_pairs
}

/// The fetches that `state` can still ask for.
spec fn fetches_left(state: TickState) -> int {
    let a = ahead(state);
    a.subjects + a.later_subjects
}

/// The answers that `state` can still take.
spec fn answers_left(state: TickState) -> int {
    let a = ahead(state);
    let pending: int = match state.stage {
        Stage::Fetching => 1,
        Stage::Sending => 2,
        Stage::Pausing => 1,
        Stage::Finished => 0,
    };
    pending + 2 * a.recipients + a.subjects * (1 + 2 * a.per_subject) + a.later_subjects + 2
        * a.later_pairs
}

/// Turning to the kinds from `from` on leaves exactly their subject keys and
/// pairs to serve.
proof fn lemma_ahead_entering(kinds: Seq<SubscriptionView>, now: TimeOfDay, from: nat)
    requires
        from <= kinds.len(),
    ensures
        ({
            let state = TickState::entering(kinds, now, from);
            let first: int = if state.stage == Stage::Fetching {
                1
            } else {
                0
            };
            &&& sends_left(state) == pairs_from(kinds, now, from)
            &&& fetches_left(state) + first == subjects_from(kinds, now, from)
            &&& answers_left(state) == subjects_from(kinds, now, from) + 2 * pairs_from(
                kinds,
                now,
                from,
            )
        }),
    decreases kinds.len() - from,
{
    if from < kinds.len() {
        if kinds[from as int].due(now) {
            let subjects = kinds[from as int].subjects.len() as int;
            let recipients = kinds[from as int].recipients.len() as int;
            assert(subjects * recipients == recipients + (subjects - 1) * recipients)
                by (nonlinear_arith);
            assert(subjects * (1 + 2 * recipients) == subjects + 2 * (subjects * recipients))
                by (nonlinear_arith);
            assert((subjects - 1) * (1 + 2 * recipients) == (subjects - 1) + 2 * ((subjects - 1)
                * recipients)) by (nonlinear_arith);
        } else {
            lemma_ahead_entering(kinds, now, from + 1);
        }
    }
}

/// What one event does to what lies ahead: an answer that is taken uses up one
/// of the answers left, one that brings a send or a fetch uses up one of those,
/// and nothing is ever added.
proof fn lemma_ahead_step(state: TickState, event: EventView)
    requires
        state.wf(),
    ensures
        ({
            let next = state.step(event);
            let sent: int = if state.accepts(event) && next.stage == Stage::Sending {
                1
            } else {
                0
            };
            let fetched: int = if state.accepts(event) && next.stage == Stage::Fetching {
                1
            } else {
                0
            };
            let taken: int = if state.accepts(event) {
                1
            } else {
                0
            };
            &&& 0 <= sends_left(next)
            &&& 0 <= fetches_left(next)
            &&& 0 <= answers_left(next)
            &&& sends_left(next) + sent <= sends_left(state)
            &&& fetches_left(next) + fetched <= fetches_left(state)
            &&& answers_left(next) + taken <= answers_left(state)
        }),
{
    lemma_step_wf(state, event);
    let next = state.step(event);
    lemma_ahead_nonnegative(state);
    lemma_ahead_nonnegative(next);
    if state.accepts(event) {
        let a = ahead(state);
        assert((a.subjects + 1) * a.per_subject == a.subjects * a.per_subject + a.per_subject)
            by (nonlinear_arith);
        assert(a.subjects * (1 + 2 * a.per_subject) == ((a.subjects - 1) * (1 + 2 * a.per_subject))
            + 1 + 2 * a.per_subject) by (nonlinear_arith);
        assert(a.subjects * a.per_subject == (a.subjects - 1) * a.per_subject + a.per_subject)
            by (nonlinear_arith);
        lemma_ahead_entering(state.kinds, state.now, state.kind + 1);
    }
}

/// Nothing that lies ahead is counted below zero.
proof fn lemma_ahead_nonnegative(state: TickState)
    requires
        state.wf(),
    ensures
        0 <= ahead(state).subjects,
        0 <= ahead(state).recipients,
        0 <= ahead(state).per_subject,
        0 <= ahead(state).subjects * ahead(state).per_subject,
        0 <= ahead(state).subjects * (1 + 2 * ahead(state).per_subject),
        0 <= sends_left(state),
        0 <= fetches_left(state),
        0 <= answers_left(state),
{
    let a = ahead(state);
    assert(0 <= a.subjects * a.per_subject) by (nonlinear_arith)
        requires
            0 <= a.subjects,
            0 <= a.per_subject,
    ;
    assert(0 <= a.subjects * (1 + 2 * a.per_subject)) by (nonlinear_arith)
        requires
            0 <= a.subjects,
            0 <= a.per_subject,
    ;
}

/// What was asked for and what is left never exceed what the due kinds hold.
proof fn lemma_balance(kinds: Seq<SubscriptionView>, now: TimeOfDay, events: Seq<EventView>)
    requires
        all_wf(kinds),
        now.valid(),
    ensures
        ({
            let start = TickState::start(kinds, now);
            let state = run(start, events);
            &&& 0 <= sends_left(state)
            &&& 0 <= fetches_left(state)
            &&& 0 <= answers_left(state)
            &&& sends(start, events) + sends_left(state) <= pairs_from(kinds, now, 0)
            &&& fetches(start, events) + fetches_left(state) <= subjects_from(kinds, now, 0)
            &&& accepted(start, events) + answers_left(state) <= subjects_from(kinds, now, 0) + 2
                * pairs_from(kinds, now, 0)
        }),
    decreases events.len(),
{
    let start = TickState::start(kinds, now);
    lemma_start_wf(kinds, now);
    if events.len() == 0 {
        lemma_ahead_entering(kinds, now, 0);
        lemma_ahead_nonnegative(start);
    } else {
        lemma_balance(kinds, now, events.drop_last());
        lemma_run_wf(start, events.drop_last());
        lemma_ahead_step(run(start, events.drop_last()), events.last());
    }
}

/// A tick asks for at most one send for each pair of a subject key and a
/// recipient of the kinds that are due, whatever is reported to it.
pub proof fn lemma_sends_are_bounded(
    kinds: Seq<SubscriptionView>,
    now: TimeOfDay,
    events: Seq<EventView>,
)
    requires
        all_wf(kinds),
        now.valid(),
    ensures
        sends(TickState::start(kinds, now), events) <= pairs_from(kinds, now, 0),
{
    lemma_balance(kinds, now, events);
}

/// A tick asks for at most one fetch for each subject key of the kinds that
/// are due, whatever is reported to it: no subject key is tried again within
/// the tick.
pub proof fn lemma_fetches_are_bounded(
    kinds: Seq<SubscriptionView>,
    now: TimeOfDay,
    events: Seq<EventView>,
)
    requires
        all_wf(kinds),
        now.valid(),
    ensures
        fetches(TickState::start(kinds, now), events) <= subjects_from(kinds, now, 0),
{
    lemma_balance(kinds, now, events);
}

/// A tick comes to its end: it takes one answer for each fetch and two for each
/// send, the send's own and the pause's, and so no more than the subject keys
/// and twice the pairs of the due kinds. A tick that is not over is waiting for
/// an answer that it will take.
pub proof fn lemma_tick_ends(
    kinds: Seq<SubscriptionView>,
    now: TimeOfDay,
    events: Seq<EventView>,
)
    requires
        all_wf(kinds),
        now.valid(),
    ensures
        accepted(TickState::start(kinds, now), events) <= subjects_from(kinds, now, 0) + 2
            * pairs_from(kinds, now, 0),
        run(TickState::start(kinds, now), events).stage != Stage::Finished ==> exists|
            answer: EventView,
        | run(TickState::start(kinds, now), events).accepts(answer),
{
    lemma_balance(kinds, now, events);
    let state = run(TickState::start(kinds, now), events);
    match state.stage {
        Stage::Fetching => {
            assert(state.accepts(EventView::FetchFailed(Seq::empty())));
        },
        Stage::Sending => {
            assert(state.accepts(EventView::Sent));
        },
        Stage::Pausing => {
            assert(state.accepts(EventView::Paused));
        },
        Stage::Finished => {},
    }
}

/// The answers left never grow along a run.
proof fn lemma_answers_left_shrinks(state: TickState, events: Seq<EventView>)
    requires
        state.wf(),
    ensures
        0 <= answers_left(run(state, events)) <= answers_left(state),
    decreases events.len(),
{
    if events.len() == 0 {
        lemma_ahead_nonnegative(state);
    } else {
        lemma_answers_left_shrinks(state, events.drop_last());
        lemma_run_wf(state, events.drop_last());
        lemma_ahead_step(run(state, events.drop_last()), events.last());
    }
}

/// Whether two states stand at the same place of the tick: at the same stage
/// of the same recipient of the same subject key of the same kind.
pub open spec fn same_place(one: TickState, other: TickState) -> bool {
    one.stage == other.stage && one.kind == other.kind && one.subject == other.subject
        && one.recipient == other.recipient
}

/// The engine never asks for the same thing twice. Once an answer is taken, the
/// tick has left the place where it stood and does not come back to it,
/// whatever is reported later: no subject key is fetched a second time, and no
/// recipient is sent the payload of one subject key a second time.
pub proof fn lemma_no_place_recurs(state: TickState, event: EventView, events: Seq<EventView>)
    requires
        state.wf(),
        state.accepts(event),
    ensures
        !same_place(run(state.step(event), events), state),
{
    lemma_ahead_step(state, event);
    lemma_step_wf(state, event);
    lemma_answers_left_shrinks(state.step(event), events);
    lemma_run_wf(state.step(event), events);
    let later = run(state.step(event), events);
    if same_place(later, state) {
        assert(later.kinds == state.kinds);
        assert(ahead(later) == ahead(state));
    }
}

/// Every recipient of a kind is sent the same text for a subject key: the
/// payload that was fetched for it. From the moment the payload is reported
/// until the tick leaves the subject key, every send that is asked for carries
/// that payload, names that subject key and goes to a recipient of the kind.
pub proof fn lemma_payload_goes_out_unchanged(
    state: TickState,
    text: Seq<char>,
    events: Seq<EventView>,
)
    requires
        state.wf(),
        state.stage == Stage::Fetching,
    ensures
        ({
            let later = run(state.step(EventView::Fetched(text)), events);
            serves(later, state.kind, state.subject) && later.pending() is Send ==> later.recipient
                < state.current().recipients.len() && later.pending() == (ActionView::Send {
                kind: state.current().kind,
                subject: state.current().subjects[state.subject as int],
                recipient: state.current().recipients[later.recipient as int],
                text,
            })
        }),
{
    lemma_step_wf(state, EventView::Fetched(text));
    lemma_run_wf(state.step(EventView::Fetched(text)), events);
    lemma_payload_is_kept(state, text, events);
}

/// After a payload is reported, the tick either holds it while it serves the
/// subject key, or has left the subject key behind.
proof fn lemma_payload_is_kept(state: TickState, text: Seq<char>, events: Seq<EventView>)
    requires
        state.wf(),
        state.stage == Stage::Fetching,
    ensures
        ({
            let later = run(state.step(EventView::Fetched(text)), events);
            ||| later.stage == Stage::Finished
            ||| is_past(later, state.kind, state.subject)
            ||| (serves(later, state.kind, state.subject) && (later.stage == Stage::Sending
                || later.stage == Stage::Pausing) && later.payload == text)
        }),
    decreases events.len(),
{
    let first = state.step(EventView::Fetched(text));
    lemma_step_wf(state, EventView::Fetched(text));
    lemma_next_due(state.kinds, state.now, state.kind + 1);
    if events.len() > 0 {
        lemma_payload_is_kept(state, text, events.drop_last());
        lemma_run_wf(first, events.drop_last());
        let before = run(first, events.drop_last());
        if before.accepts(events.last()) {
            lemma_next_due(before.kinds, before.now, before.kind + 1);
        }
    }
}

/// After every send attempt comes the pacing delay, whether the send succeeded
/// or not, and nothing else is asked for until the pause is reported over. A
/// send is asked for only when a payload has just been fetched or a pause has
/// just ended, so between any two sends lies a full pause.
pub proof fn lemma_pause_follows_every_send(state: TickState, event: EventView)
    requires
        state.wf(),
    ensures
        state.stage == Stage::Sending && (event is Sent || event is SendFailed) ==> state.step(
            event,
        ).pending() == (ActionView::Pause { seconds: PACING_DELAY_SECS }),
        state.stage == Stage::Pausing && !(event is Paused) ==> state.step(event) == state,
        state.step(event).stage == Stage::Sending && state.step(event) != state ==> (state.stage
            == Stage::Fetching && event is Fetched) || (state.stage == Stage::Pausing
            && event is Paused),
{
}

/// A failed send changes nothing in the course of the tick: the tick goes on
/// as after a send that succeeded, and the failure is handed out for the log
/// with the kind, the subject key and the recipient that it concerns.
pub proof fn lemma_failed_send_is_passed_over(state: TickState, reason: Seq<char>)
    requires
        state.wf(),
        state.stage == Stage::Sending,
    ensures
        state.step(EventView::SendFailed(reason)) == state.step(EventView::Sent),
        state.outcome(EventView::SendFailed(reason)) matches Some(record) && record.outcome
            == DispatchOutcomeView::SendFailed(reason) && record.kind == state.current().kind
            && record.subject == state.current().subjects[state.subject as int]
            && record.recipient == Some(state.current().recipients[state.recipient as int]),
{
}

/// Once a subject key is left behind, no event brings the tick back to it.
proof fn lemma_past_stays_past(state: TickState, kind: nat, subject: nat, events: Seq<EventView>)
    requires
        state.wf(),
        state.stage == Stage::Finished || is_past(state, kind, subject),
    ensures
        !serves(run(state, events), kind, subject),
        run(state, events).stage == Stage::Finished || is_past(run(state, events), kind, subject),
    decreases events.len(),
{
    if events.len() > 0 {
        let before = run(state, events.drop_last());
        lemma_past_stays_past(state, kind, subject, events.drop_last());
        lemma_run_wf(state, events.drop_last());
        if before.accepts(events.last()) {
            lemma_next_due(before.kinds, before.now, before.kind + 1);
        }
    }
}

/// A failed fetch costs its subject key and nothing else: the failure is
/// handed out for the log, the tick turns to the subject key that follows, and
/// whatever is reported later, it never asks for a send, nor for a second
/// fetch, for the subject key that failed.
pub proof fn lemma_failed_fetch_skips_its_subject(
    state: TickState,
    reason: Seq<char>,
    events: Seq<EventView>,
)
    requires
        state.wf(),
        state.stage == Stage::Fetching,
    ensures
        state.step(EventView::FetchFailed(reason)) == state.after_subject(),
        state.subject + 1 < state.current().subjects.len() ==> state.after_subject().pending() == (
        ActionView::Fetch {
            kind: state.current().kind,
            subject: state.current().subjects[state.subject as int + 1],
        }),
        state.outcome(EventView::FetchFailed(reason)) matches Some(record) && record.outcome
            == DispatchOutcomeView::FetchFailed(reason) && record.recipient.is_none(),
        !serves(run(state.after_subject(), events), state.kind, state.subject),
{
    lemma_step_wf(state, EventView::FetchFailed(reason));
    lemma_next_due(state.kinds, state.now, state.kind + 1);
    lemma_past_stays_past(state.after_subject(), state.kind, state.subject, events);
}

} // verus!
