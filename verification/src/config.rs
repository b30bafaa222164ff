//! The configuration record and the per-tick snapshot of who is notified about what.

use crate::clock::{inside_window, TimeOfDay, TriggerWindow};
use vstd::prelude::*;

verus! {

/// The bot's configuration as it is read from its file: the admin, the two
/// notification kinds' subject keys and recipients, and what the commands need
/// to reach their services.
#[derive(Clone, Debug)]
pub struct Config {
    pub admin: u64,
    pub alert_users: Vec<u64>,
    pub alert_zip_codes: Vec<i32>,
    pub debug: bool,
    pub discord: String,
    /// Monitoring URL to ping; empty when no monitor is configured.
    pub healthcheck: String,
    pub openuv: String,
    pub user_agent: String,
    pub uv_users: Vec<u64>,
    pub uv_zip_codes: Vec<i32>,
}

/// The independently configured categories of daily notification.
#[derive(Clone, Copy, Debug, PartialEq, Eq, Structural)]
pub enum NotificationKind {
    /// Active severe-weather alerts for a zone.
    Alerts,
    /// The day's UV index forecast.
    UvForecast,
}

/// `ids` without repetitions: each identifier once, at the place of its first
/// occurrence.
pub open spec fn first_occurrences(ids: Seq<u64>) -> Seq<u64>
    decreases ids.len(),
{
    if ids.len() == 0 {
        Seq::empty()
    } else {
        let earlier = first_occurrences(ids.drop_last());
        if earlier.contains(ids.last()) {
            earlier
        } else {
            earlier.push(ids.last())
        }
    }
}

/// `first_occurrences` names the same identifiers as its argument, each once.
pub proof fn lemma_first_occurrences(ids: Seq<u64>)
    ensures
        first_occurrences(ids).no_duplicates(),
        first_occurrences(ids).len() <= ids.len(),
        forall|id: u64| first_occurrences(ids).contains(id) <==> ids.contains(id),
    decreases ids.len(),
{
    if ids.len() > 0 {
        let front = ids.drop_last();
        let earlier = first_occurrences(front);
        lemma_first_occurrences(front);
        assert forall|id: u64| first_occurrences(ids).contains(id) <==> ids.contains(id) by {
            if ids.contains(id) {
                let i = choose|i: int| 0 <= i < ids.len() && ids[i] == id;
                if i < front.len() {
                    assert(front[i] == id);
                    assert(front.contains(id));
                }
            }
            if front.contains(id) {
                let i = choose|i: int| 0 <= i < front.len() && front[i] == id;
                assert(ids[i] == id);
            }
            if !earlier.contains(ids.last()) {
                let grown = earlier.push(ids.last());
                assert(grown[earlier.len() as int] == ids.last());
                if earlier.contains(id) {
                    let i = choose|i: int| 0 <= i < earlier.len() && earlier[i] == id;
                    assert(grown[i] == id);
                }
            }
            assert(ids[ids.len() - 1] == ids.last());
        }
    }
}

/// Whether `id` occurs in `ids`.
fn holds(ids: &Vec<u64>, id: u64) -> (found: bool)
    ensures
        found == ids@.contains(id),
{
    let mut i: usize = 0;
    while i < ids.len()
        invariant
            i <= ids.len(),
            forall|j: int| 0 <= j < i ==> ids@[j] != id,
        decreases ids.len() - i,
    {
        if ids[i] == id {
            return true;
        }
        i += 1;
    }
    false
}

/// The recipient set that a configured list of user identifiers stands for.
pub fn distinct_recipients(ids: &Vec<u64>) -> (set: Vec<u64>)
    ensures
        set@ == first_occurrences(ids@),
        set@.no_duplicates(),
        forall|id: u64| set@.contains(id) <==> ids@.contains(id),
{
    let mut set: Vec<u64> = Vec::new();
    let mut i: usize = 0;
    while i < ids.len()
        invariant
            i <= ids.len(),
            set@ == first_occurrences(ids@.take(i as int)),
        decreases ids.len() - i,
    {
        let id: u64 = ids[i];
        proof {
            assert(ids@.take(i + 1).drop_last() == ids@.take(i as int));
            assert(ids@.take(i + 1).last() == id);
        }
        if !holds(&set, id) {
            set.push(id);
        }
        i += 1;
    }
    proof {
        assert(ids@.take(i as int) == ids@);
        lemma_first_occurrences(ids@);
    }
    set
}

/// What one notification kind is configured to do, as plain mathematics.
pub struct SubscriptionView {
    pub kind: NotificationKind,
    /// Subject keys, in the order in which they are served.
    pub subjects: Seq<i32>,
    /// The recipient set, in the order in which it is walked.
    pub recipients: Seq<u64>,
    pub window: TriggerWindow,
}

impl SubscriptionView {
    /// No recipient is named twice, and the window's ends are times of day.
    pub open spec fn wf(self) -> bool {
        self.recipients.no_duplicates() && self.window.valid()
    }

    /// Whether the kind has anything to do at `now`: its window is open and it
    /// has at least one subject key.
    pub open spec fn due(self, now: TimeOfDay) -> bool {
        self.window.contains(now) && self.subjects.len() > 0
    }
}

/// One notification kind's targets: its subject keys, its recipient set and the
/// window in which it fires.
#[derive(Debug)]
pub struct Subscription {
    kind: NotificationKind,
    subjects: Vec<i32>,
    recipients: Vec<u64>,
    window: TriggerWindow,
}

impl View for Subscription {
    type V = SubscriptionView;

    closed spec fn view(&self) -> SubscriptionView {
        SubscriptionView {
            kind: self.kind,
            subjects: self.subjects@,
            recipients: self.recipients@,
            window: self.window,
        }
    }
}

impl Subscription {
    #[verifier::type_invariant]
    closed spec fn distinct(self) -> bool {
        self.recipients@.no_duplicates()
    }

    /// A kind that serves `subjects` in order to the set of users named in
    /// `recipients`, whenever the time of day is inside `window`.
    pub fn new(
        kind: NotificationKind,
        subjects: Vec<i32>,
        recipients: &Vec<u64>,
        window: TriggerWindow,
    ) -> (subscription: Subscription)
        ensures
            subscription@ == (SubscriptionView {
                kind,
                subjects: subjects@,
                recipients: first_occurrences(recipients@),
                window,
            }),
            subscription@.wf(),
    {
        let set: Vec<u64> = distinct_recipients(recipients);
        proof {
            use_type_invariant(window);
        }
        Subscription { kind, subjects, recipients: set, window }
    }

    /// The notification kind that this subscription configures.
    pub fn kind(&self) -> (kind: NotificationKind)
        ensures
            kind == self@.kind,
    {
        self.kind
    }

    /// The window in which the kind fires.
    pub fn window(&self) -> (window: TriggerWindow)
        ensures
            window == self@.window,
    {
        self.window
    }

    /// The subject keys, in the order in which they are served.
    pub fn subjects(&self) -> (subjects: &Vec<i32>)
        ensures
            subjects@ == self@.subjects,
    {
        &self.subjects
    }

    /// The recipient set: every configured user once.
    pub fn recipients(&self) -> (recipients: &Vec<u64>)
        ensures
            recipients@ == self@.recipients,
            recipients@.no_duplicates(),
    {
        proof {
            use_type_invariant(self);
        }
        &self.recipients
    }

    /// Whether the kind has anything to do at `now`.
    pub fn is_due(&self, now: TimeOfDay) -> (due: bool)
        ensures
            due == self@.due(now),
            self@.wf(),
    {
        proof {
            use_type_invariant(self);
            use_type_invariant(self.window);
        }
        inside_window(now, self.window) && self.subjects.len() > 0
    }
}

/// Whether every kind in `kinds` is well formed.
pub open spec fn all_wf(kinds: Seq<SubscriptionView>) -> bool {
    forall|k: int| 0 <= k < kinds.len() ==> (#[trigger] kinds[k]).wf()
}

/// The snapshot of notification targets that one scheduler tick works from:
/// the configured kinds, in the order in which a tick serves them.
#[derive(Debug)]
pub struct NotificationConfig {
    kinds: Vec<Subscription>,
}

impl View for NotificationConfig {
    type V = Seq<SubscriptionView>;

    closed spec fn view(&self) -> Seq<SubscriptionView> {
        Seq::new(self.kinds@.len(), |k: int| self.kinds@[k]@)
    }
}

impl NotificationConfig {
    #[verifier::type_invariant]
    closed spec fn kinds_wf(self) -> bool {
        all_wf(self@)
    }

    /// A snapshot with no kinds in it.
    pub fn new() -> (snapshot: NotificationConfig)
        ensures
            snapshot@ == Seq::<SubscriptionView>::empty(),
    {
        let snapshot = NotificationConfig { kinds: Vec::new() };
        assert(snapshot@ =~= Seq::<SubscriptionView>::empty());
        snapshot
    }

    /// The snapshot with one more kind, served after those already there.
    pub fn with(self, subscription: Subscription) -> (snapshot: NotificationConfig)
        ensures
            snapshot@ == self@.push(subscription@),
    {
        proof {
            use_type_invariant(&self);
            use_type_invariant(&subscription);
            use_type_invariant(subscription.window);
        }
        let ghost before = self@;
        let mut kinds: Vec<Subscription> = self.kinds;
        kinds.push(subscription);
        proof {
            let after = Seq::new(kinds@.len(), |k: int| kinds@[k]@);
            assert(after =~= before.push(subscription@));
            assert forall|k: int| 0 <= k < after.len() implies (#[trigger] after[k]).wf() by {
                if k < before.len() {
                    assert(before[k].wf());
                }
            }
        }
        NotificationConfig { kinds }
    }

    /// The targets that `config` names: the alerts first, then the UV forecast,
    /// each with its own subject keys and recipient set, both firing in `window`.
    pub fn snapshot(config: &Config, window: TriggerWindow) -> (snapshot: NotificationConfig)
        ensures
            snapshot@ == seq![
                SubscriptionView {
                    kind: NotificationKind::Alerts,
                    subjects: config.alert_zip_codes@,
                    recipients: first_occurrences(config.alert_users@),
                    window,
                },
                SubscriptionView {
                    kind: NotificationKind::UvForecast,
                    subjects: config.uv_zip_codes@,
                    recipients: first_occurrences(config.uv_users@),
                    window,
                },
            ],
            all_wf(snapshot@),
    {
        let alerts = Subscription::new(
            NotificationKind::Alerts,
            copy_keys(&config.alert_zip_codes),
            &config.alert_users,
            window,
        );
        let uv = Subscription::new(
            NotificationKind::UvForecast,
            copy_keys(&config.uv_zip_codes),
            &config.uv_users,
            window,
        );
        let ghost expected = seq![alerts@, uv@];
        let snapshot = NotificationConfig::new().with(alerts).with(uv);
        assert(snapshot@ =~= expected);
        snapshot
    }

    /// How many kinds the snapshot holds.
    pub fn len(&self) -> (len: usize)
        ensures
            len == self@.len(),
            all_wf(self@),
    {
        proof {
            use_type_invariant(self);
        }
        self.kinds.len()
    }

    /// The kind at position `index`.
    pub fn kind_at(&self, index: usize) -> (subscription: &Subscription)
        requires
            index < self@.len(),
        ensures
            subscription@ == self@[index as int],
    {
        &self.kinds[index]
    }
}

/// A fresh vector with the elements of `keys`.
fn copy_keys(keys: &Vec<i32>) -> (copy: Vec<i32>)
    ensures
        copy@ == keys@,
{
    let mut copy: Vec<i32> = Vec::new();
    let mut i: usize = 0;
    while i < keys.len()
        invariant
            i <= keys.len(),
            copy@ == keys@.take(i as int),
        decreases keys.len() - i,
    {
        copy.push(keys[i]);
        proof {
            assert(keys@.take(i + 1) == keys@.take(i as int).push(keys@[i as int]));
        }
        i += 1;
    }
    proof {
        assert(keys@.take(i as int) == keys@);
    }
    copy
}

} // verus!
