//! Listing the tasks under a key pattern. The store first finds the keys;
//! then, key by key, it reads the task and, when that works, the seconds the
//! key has left. A task that cannot be read is skipped; a lifetime that cannot
//! be read ends the listing with that error. `TaskListing` takes these
//! decisions; the caller performs the reads that it asks for.
use vstd::prelude::*;

use crate::storage::error::{StorageError, StorageErrorView, StorageResult};
use crate::storage::models::{FormattedTask, FormattedTaskView, Task, TaskView};

verus! {

/// What became of one key of a listing.
pub enum KeyOutcome {
    /// The task could not be read; the key is skipped.
    Unreadable,
    /// The task was read but its lifetime could not be; the listing ends.
    TtlFailed(StorageErrorView),
    /// The task and its lifetime were read; they are listed.
    Listed(FormattedTaskView),
}

/// The result of a listing whose keys, in order, came to `outcomes`.
pub open spec fn listing_result(outcomes: Seq<KeyOutcome>) -> Result<
    Seq<FormattedTaskView>,
    StorageErrorView,
>
    decreases outcomes.len(),
{
    if outcomes.len() == 0 {
        Ok(Seq::empty())
    } else {
        match listing_result(outcomes.drop_last()) {
            Err(e) => Err(e),
            Ok(prev) => match outcomes.last() {
                KeyOutcome::Unreadable => Ok(prev),
                KeyOutcome::TtlFailed(e) => Err(e),
                KeyOutcome::Listed(f) => Ok(prev.push(f)),
            },
        }
    }
}

/// When every key of a listing was read in full, the listing holds all of
/// them, in the order of their keys.
pub proof fn lemma_listing_of_readable_keys(outcomes: Seq<KeyOutcome>)
    requires
        forall|i: int| 0 <= i < outcomes.len() ==> #[trigger] outcomes[i] is Listed,
    ensures
        listing_result(outcomes) == Ok::<_, StorageErrorView>(
            outcomes.map_values(|o: KeyOutcome| o->Listed_0),
        ),
    decreases outcomes.len(),
{
    if outcomes.len() > 0 {
        let prefix = outcomes.drop_last();
        assert forall|i: int| 0 <= i < prefix.len() implies #[trigger] prefix[i] is Listed by {
            assert(outcomes[i] is Listed);
        }
        lemma_listing_of_readable_keys(prefix);
        assert(outcomes[outcomes.len() - 1] is Listed);
        assert(outcomes.map_values(|o: KeyOutcome| o->Listed_0) =~= prefix.map_values(
            |o: KeyOutcome| o->Listed_0,
        ).push(outcomes.last()->Listed_0));
    } else {
        assert(outcomes.map_values(|o: KeyOutcome| o->Listed_0) =~= Seq::empty());
    }
}

/// A listing never holds more tasks than it went through keys, and it ends in
/// an error exactly when the lifetime of some key could not be read.
pub proof fn lemma_listing_shape(outcomes: Seq<KeyOutcome>)
    ensures
        listing_result(outcomes) matches Ok(v) ==> v.len() <= outcomes.len(),
        listing_result(outcomes) is Err <==> exists|i: int|
            0 <= i < outcomes.len() && #[trigger] outcomes[i] is TtlFailed,
    decreases outcomes.len(),
{
    if outcomes.len() > 0 {
        let prefix = outcomes.drop_last();
        lemma_listing_shape(prefix);
        if exists|i: int| 0 <= i < prefix.len() && #[trigger] prefix[i] is TtlFailed {
            let i = choose|i: int| 0 <= i < prefix.len() && #[trigger] prefix[i] is TtlFailed;
            assert(outcomes[i] is TtlFailed);
        }
        if exists|i: int| 0 <= i < outcomes.len() && #[trigger] outcomes[i] is TtlFailed {
            let i = choose|i: int| 0 <= i < outcomes.len() && #[trigger] outcomes[i] is TtlFailed;
            if i < prefix.len() {
                assert(prefix[i] is TtlFailed);
            }
        }
    }
}

/// A listing works through its keys in order: whatever it asks, it asks it
/// of the key after those it is done with, and it asks for nothing once it
/// has ended.
pub proof fn lemma_listing_reads_current_key(s: ListingState)
    requires
        s.outcomes.len() < s.keys.len() || s.finished,
    ensures
        s.finished <==> next_action(s) is Done,
        next_action(s) matches ListingActionView::ReadTask(k) ==> k == s.keys[s.outcomes.len() as int]
            && s.pending is None,
        next_action(s) matches ListingActionView::ReadTtl(k) ==> k == s.keys[s.outcomes.len() as int]
            && s.pending is Some,
{
}

/// The lifetime that a listing asks for after a task was read is that of the
/// very key whose task was read.
pub proof fn lemma_lifetime_asked_for_key_read(s: ListingState, t: TaskView)
    requires
        !s.finished,
        s.pending is None,
        s.outcomes.len() < s.keys.len(),
    ensures
        next_action(s) matches ListingActionView::ReadTask(k1) && next_action(
            after(s, ListingEventView::TaskRead(Ok(t))),
        ) matches ListingActionView::ReadTtl(k2) && k1 == k2 && k1 == s.keys[s.outcomes.len() as int],
{
}

/// Reading a task and then the lifetime of its key lists exactly that task,
/// unaltered, with exactly that lifetime, after the tasks listed so far.
pub proof fn lemma_listed_task_is_task_read(s: ListingState, t: TaskView, d: i64)
    requires
        !s.finished,
        s.pending is None,
        s.outcomes.len() < s.keys.len(),
        listing_result(s.outcomes) is Ok,
    ensures
        after(after(s, ListingEventView::TaskRead(Ok(t))), ListingEventView::TtlRead(Ok(d))).outcomes
            == s.outcomes.push(KeyOutcome::Listed(FormattedTaskView { task: t, expire: d })),
        listing_result(
            after(after(s, ListingEventView::TaskRead(Ok(t))), ListingEventView::TtlRead(Ok(d))).outcomes,
        ) == Ok::<_, StorageErrorView>(
            listing_result(s.outcomes)->Ok_0.push(FormattedTaskView { task: t, expire: d }),
        ),
{
    let o = s.outcomes.push(KeyOutcome::Listed(FormattedTaskView { task: t, expire: d }));
    assert(o.drop_last() =~= s.outcomes);
}

/// What the store has read for the listing.
pub enum ListingEvent {
    TaskRead(StorageResult<Task>),
    TtlRead(StorageResult<i64>),
}

/// The mathematical value of a `ListingEvent`.
pub enum ListingEventView {
    TaskRead(Result<TaskView, StorageErrorView>),
    TtlRead(Result<i64, StorageErrorView>),
}

impl View for ListingEvent {
    type V = ListingEventView;

    open spec fn view(&self) -> ListingEventView {
        match self {
            ListingEvent::TaskRead(Ok(t)) => ListingEventView::TaskRead(Ok(t@)),
            ListingEvent::TaskRead(Err(e)) => ListingEventView::TaskRead(Err(e@)),
            ListingEvent::TtlRead(Ok(d)) => ListingEventView::TtlRead(Ok(*d)),
            ListingEvent::TtlRead(Err(e)) => ListingEventView::TtlRead(Err(e@)),
        }
    }
}

/// What the listing asks the store to do next.
pub enum ListingAction {
    /// Read the task stored under this key.
    ReadTask(String),
    /// Read how many seconds this key has left.
    ReadTtl(String),
    /// Nothing more: take the result with `finish`.
    Done,
}

/// The mathematical value of a `ListingAction`.
pub enum ListingActionView {
    ReadTask(Seq<char>),
    ReadTtl(Seq<char>),
    Done,
}

impl View for ListingAction {
    type V = ListingActionView;

    open spec fn view(&self) -> ListingActionView {
        match self {
            ListingAction::ReadTask(k) => ListingActionView::ReadTask(k@),
            ListingAction::ReadTtl(k) => ListingActionView::ReadTtl(k@),
            ListingAction::Done => ListingActionView::Done,
        }
    }
}

/// Where a listing stands: the keys it goes through, what became of those it
/// is done with, the task read for the current key while its lifetime is
/// awaited, and whether it has ended.
pub struct ListingState {
    pub keys: Seq<Seq<char>>,
    pub outcomes: Seq<KeyOutcome>,
    pub pending: Option<TaskView>,
    pub finished: bool,
}

/// The action that a listing in state `s` asks for.
pub open spec fn next_action(s: ListingState) -> ListingActionView {
    if s.finished {
        ListingActionView::Done
    } else {
        match s.pending {
            Some(_) => ListingActionView::ReadTtl(s.keys[s.outcomes.len() as int]),
            None => ListingActionView::ReadTask(s.keys[s.outcomes.len() as int]),
        }
    }
}

/// The event that a listing in state `s` waits for.
pub open spec fn awaits(s: ListingState, e: ListingEventView) -> bool {
    match e {
        ListingEventView::TaskRead(_) => s.pending is None,
        ListingEventView::TtlRead(_) => s.pending is Some,
    }
}

/// The state after the current key came to `o`.
pub open spec fn advance(s: ListingState, o: KeyOutcome) -> ListingState {
    ListingState {
        keys: s.keys,
        outcomes: s.outcomes.push(o),
        pending: None,
        finished: o is TtlFailed || s.outcomes.len() + 1 == s.keys.len(),
    }
}

/// The state of a listing after an event.
pub open spec fn after(s: ListingState, e: ListingEventView) -> ListingState {
    match e {
        ListingEventView::TaskRead(Ok(t)) => ListingState { pending: Some(t), ..s },
        ListingEventView::TaskRead(Err(_)) => advance(s, KeyOutcome::Unreadable),
        ListingEventView::TtlRead(Ok(d)) => advance(
            s,
            KeyOutcome::Listed(FormattedTaskView { task: s.pending.unwrap(), expire: d }),
        ),
        ListingEventView::TtlRead(Err(err)) => advance(s, KeyOutcome::TtlFailed(err)),
    }
}

/// How far a listing has come: two steps per key.
pub open spec fn progress(s: ListingState) -> int {
    2 * s.outcomes.len() + if s.pending is Some {
        1int
    } else {
        0int
    }
}

/// The listing of the tasks under a set of keys.
pub struct TaskListing {
    keys: Vec<String>,
    next: usize,
    pending: Option<Task>,
    tasks: Vec<FormattedTask>,
    failure: Option<StorageError>,
    outcomes: Ghost<Seq<KeyOutcome>>,
}

/// The views of a sequence of keys.
pub open spec fn key_views(keys: Seq<String>) -> Seq<Seq<char>> {
    keys.map_values(|k: String| k@)
}

/// The views of a sequence of formatted tasks.
pub open spec fn formatted_views(tasks: Seq<FormattedTask>) -> Seq<FormattedTaskView> {
    tasks.map_values(|f: FormattedTask| f@)
}

impl View for TaskListing {
    type V = ListingState;

    closed spec fn view(&self) -> ListingState {
        ListingState {
            keys: key_views(self.keys@),
            outcomes: self.outcomes@,
            pending: match self.pending {
                Some(t) => Some(t@),
                None => None,
            },
            finished: self.failure is Some || self.next == self.keys.len(),
        }
    }
}

impl TaskListing {
    /// The listing is consistent: it has gone through the keys before
    /// `next`, its result so far is that of their outcomes, and it waits for
    /// a lifetime only while it is under way.
    pub closed spec fn wf(&self) -> bool {
        &&& self.next == self.outcomes@.len()
        &&& self.next <= self.keys.len()
        &&& self.pending is Some ==> self.failure is None && self.next < self.keys.len()
        &&& match self.failure {
            Some(e) => listing_result(self.outcomes@) == Err::<Seq<FormattedTaskView>, _>(e@),
            None => listing_result(self.outcomes@) == Ok::<_, StorageErrorView>(
                formatted_views(self.tasks@),
            ),
        }
    }

    /// A consistent listing is at most two steps per key from its start.
    pub proof fn lemma_progress_bounded(&self)
        requires
            self.wf(),
        ensures
            0 <= progress(self@) <= 2 * self@.keys.len(),
            self@.finished || progress(self@) < 2 * self@.keys.len(),
    {
    }

    /// A listing of `keys`, and the first thing it asks for.
    pub fn new(keys: Vec<String>) -> (r: (TaskListing, ListingAction))
        ensures
            r.0.wf(),
            r.0@.keys == key_views(keys@),
            r.0@.outcomes == Seq::<KeyOutcome>::empty(),
            r.0@.pending is None,
            r.0@.finished == (keys.len() == 0),
            r.1@ == next_action(r.0@),
            keys.len() > 0 ==> (r.1 matches ListingAction::ReadTask(k) && k@ == keys@[0]@),
            keys.len() == 0 ==> r.1 is Done,
    {
        let listing = TaskListing {
            keys,
            next: 0,
            pending: None,
            tasks: Vec::new(),
            failure: None,
            outcomes: Ghost(Seq::empty()),
        };
        assert(formatted_views(listing.tasks@) =~= Seq::empty());
        let action = listing.action();
        (listing, action)
    }

    /// The action that the listing asks for now.
    pub fn action(&self) -> (r: ListingAction)
        requires
            self.wf(),
        ensures
            r@ == next_action(self@),
            r is Done <==> self@.finished,
            r matches ListingAction::ReadTask(k) ==> self@.pending is None && k@ == self@.keys[
                self@.outcomes.len() as int],
            r matches ListingAction::ReadTtl(k) ==> self@.pending is Some && k@ == self@.keys[
                self@.outcomes.len() as int],
    {
        if self.failure.is_some() || self.next == self.keys.len() {
            ListingAction::Done
        } else {
            let key = self.keys[self.next].clone();
            if self.pending.is_some() {
                ListingAction::ReadTtl(key)
            } else {
                ListingAction::ReadTask(key)
            }
        }
    }

    /// Whether the listing has ended.
    pub fn is_finished(&self) -> (r: bool)
        ensures
            r == self@.finished,
    {
        self.failure.is_some() || self.next == self.keys.len()
    }

    /// Takes what the store read for the current key, and says what to do
    /// next.
    pub fn step(&mut self, event: ListingEvent) -> (r: ListingAction)
        requires
            old(self).wf(),
            !old(self)@.finished,
            awaits(old(self)@, event@),
        ensures
            final(self).wf(),
            final(self)@ == after(old(self)@, event@),
            r@ == next_action(final(self)@),
            progress(final(self)@) > progress(old(self)@),
            r matches ListingAction::ReadTask(k) ==> k@ == final(self)@.keys[
                final(self)@.outcomes.len() as int],
            event@ matches ListingEventView::TaskRead(Ok(t)) ==> (final(self)@.pending == Some(t)
                && final(self)@.outcomes == old(self)@.outcomes && (r matches ListingAction::ReadTtl(
                k) && k@ == old(self)@.keys[old(self)@.outcomes.len() as int])),
            event@ matches ListingEventView::TtlRead(Ok(d)) ==> final(self)@.outcomes == old(
                self,
            )@.outcomes.push(
                KeyOutcome::Listed(FormattedTaskView { task: old(self)@.pending.unwrap(), expire: d }),
            ),
    {
        let ghost before = self.outcomes@;
        match event {
            ListingEvent::TaskRead(Ok(t)) => {
                self.pending = Some(t);
            },
            ListingEvent::TaskRead(Err(_)) => {
                self.outcomes = Ghost(before.push(KeyOutcome::Unreadable));
                self.next = self.next + 1;
                assert(self.outcomes@.drop_last() =~= before);
            },
            ListingEvent::TtlRead(Ok(expire)) => {
                let task = self.pending.take().unwrap();
                let ghost f = FormattedTaskView { task: task@, expire };
                self.tasks.push(FormattedTask { task, expire });
                self.outcomes = Ghost(before.push(KeyOutcome::Listed(f)));
                self.next = self.next + 1;
                assert(self.outcomes@.drop_last() =~= before);
                assert(formatted_views(self.tasks@) =~= formatted_views(old(self).tasks@).push(f));
            },
            ListingEvent::TtlRead(Err(e)) => {
                self.pending = None;
                let ghost ev = e@;
                self.failure = Some(e);
                self.outcomes = Ghost(before.push(KeyOutcome::TtlFailed(ev)));
                self.next = self.next + 1;
                assert(self.outcomes@.drop_last() =~= before);
            },
        }
        assert(key_views(self.keys@) == key_views(old(self).keys@));
        self.action()
    }

    /// The result of a listing that has ended: the listed tasks in the order
    /// of their keys, or the error that ended it.
    pub fn finish(self) -> (r: StorageResult<Vec<FormattedTask>>)
        requires
            self.wf(),
            self@.finished,
        ensures
            match r {
                Ok(v) => listing_result(self@.outcomes) == Ok::<_, StorageErrorView>(
                    formatted_views(v@),
                ),
                Err(e) => listing_result(self@.outcomes) == Err::<Seq<FormattedTaskView>, _>(
                    e@,
                ),
            },
    {
        match self.failure {
            Some(e) => Err(e),
            None => Ok(self.tasks),
        }
    }
}

} // verus!
