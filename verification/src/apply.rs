//! The apply stage: one queue that every producer appends to, and one
//! consumer that takes the events out in the order they came in and turns
//! each into the call that the destination is owed.
//!
//! The destination itself is out of reach of this module. What a run of
//! actions does to it is stated over a model, a map from paths to values, and
//! the laws at the end of the file are proved of that model.

use crate::audit::{event_of, translate, translation, AuditRecordView, Outcome, Verb};
use crate::event::{ChangeEvent, ChangeEventView};
use crate::path::{
    bare, carry, is_under, rewrite_is_injective, rewritten, rewritten_lies_in_destination, under,
};
use std::collections::VecDeque;
use vstd::prelude::*;
use vstd::string::*;

verus! {

/// One call on the destination store.
#[derive(Clone, Debug, PartialEq, Eq)]
pub enum Operation {
    /// Store `value` at `path`.
    Write { path: String, value: String },
    /// Remove what is stored at `path`.
    Delete { path: String },
}

/// An operation as contracts see it.
pub enum OperationView {
    Write { path: Seq<char>, value: Seq<char> },
    Delete { path: Seq<char> },
}

impl OperationView {
    /// The destination path that the operation touches.
    pub open spec fn path(self) -> Seq<char> {
        match self {
            OperationView::Write { path, .. } => path,
            OperationView::Delete { path } => path,
        }
    }
}

impl View for Operation {
    type V = OperationView;

    open spec fn view(&self) -> OperationView {
        match self {
            Operation::Write { path, value } => OperationView::Write {
                path: path@,
                value: value@,
            },
            Operation::Delete { path } => OperationView::Delete { path: path@ },
        }
    }
}

impl DeepView for Operation {
    type V = OperationView;

    open spec fn deep_view(&self) -> OperationView {
        self@
    }
}

/// What the consumer does with one event.
#[derive(Clone, Debug, PartialEq, Eq)]
pub enum Action {
    /// Make the call on the destination.
    Issue(Operation),
    /// Dry run: report the call that would have been made, and make none.
    Announce(Operation),
}

/// An action as contracts see it.
pub enum ActionView {
    Issue(OperationView),
    Announce(OperationView),
}

impl ActionView {
    /// The operation that the action is about.
    pub open spec fn operation(self) -> OperationView {
        match self {
            ActionView::Issue(operation) => operation,
            ActionView::Announce(operation) => operation,
        }
    }
}

impl View for Action {
    type V = ActionView;

    open spec fn view(&self) -> ActionView {
        match self {
            Action::Issue(operation) => ActionView::Issue(operation@),
            Action::Announce(operation) => ActionView::Announce(operation@),
        }
    }
}

impl DeepView for Action {
    type V = ActionView;

    open spec fn deep_view(&self) -> ActionView {
        self@
    }
}

/// The destination call that an event asks for: the same kind of change, at
/// the path rewritten from the watched prefix to the destination prefix.
pub open spec fn operation_of(
    event: ChangeEventView,
    watched: Seq<char>,
    destination: Seq<char>,
) -> OperationView
    recommends
        under(event.path(), watched),
{
    match event {
        ChangeEventView::Put { path, value } => OperationView::Write {
            path: rewritten(path, watched, destination),
            value,
        },
        ChangeEventView::Delete { path } => OperationView::Delete {
            path: rewritten(path, watched, destination),
        },
    }
}

/// What the consumer does with an event: the call is made, or in a dry run
/// only announced.
pub open spec fn action_of(
    event: ChangeEventView,
    watched: Seq<char>,
    destination: Seq<char>,
    dry_run: bool,
) -> ActionView
    recommends
        under(event.path(), watched),
{
    if dry_run {
        ActionView::Announce(operation_of(event, watched, destination))
    } else {
        ActionView::Issue(operation_of(event, watched, destination))
    }
}

/// The actions for a run of events, one for each, in the same order.
pub open spec fn actions_of(
    events: Seq<ChangeEventView>,
    watched: Seq<char>,
    destination: Seq<char>,
    dry_run: bool,
) -> Seq<ActionView> {
    Seq::new(events.len(), |i: int| action_of(events[i], watched, destination, dry_run))
}

/// The apply stage: the two prefixes, the dry-run switch, and the queue of
/// events that wait to be applied. Every queued event lies under the watched
/// prefix.
pub struct Pipeline {
    watched: String,
    destination: String,
    dry_run: bool,
    queue: VecDeque<ChangeEvent>,
}

/// A pipeline as contracts see it. The queue is in arrival order: the event at
/// index 0 is the next to be applied.
pub struct PipelineView {
    pub watched: Seq<char>,
    pub destination: Seq<char>,
    pub dry_run: bool,
    pub queue: Seq<ChangeEventView>,
}

impl View for Pipeline {
    type V = PipelineView;

    closed spec fn view(&self) -> PipelineView {
        PipelineView {
            watched: self.watched@,
            destination: self.destination@,
            dry_run: self.dry_run,
            queue: self.queue.deep_view(),
        }
    }
}

impl Pipeline {
    #[verifier::type_invariant]
    spec fn holds_watched_paths_only(&self) -> bool {
        forall|i: int|
            0 <= i < self.queue@.len() ==> under(
                (#[trigger] self.queue@[i])@.path(),
                self.watched@,
            )
    }

    /// A pipeline with an empty queue.
    pub fn new(watched: &str, destination: &str, dry_run: bool) -> (pipeline: Pipeline)
        ensures
            pipeline@ == (PipelineView {
                watched: watched@,
                destination: destination@,
                dry_run,
                queue: Seq::empty(),
            }),
    {
        let pipeline = Pipeline {
            watched: String::from_str(watched),
            destination: String::from_str(destination),
            dry_run,
            queue: VecDeque::new(),
        };
        assert(pipeline.queue.deep_view() =~= Seq::<ChangeEventView>::empty());
        pipeline
    }

    /// Whether calls are only announced.
    pub fn dry_run(&self) -> (r: bool)
        ensures
            r == self@.dry_run,
    {
        self.dry_run
    }

    /// The number of events that wait. Each of them lies under the watched
    /// prefix.
    pub fn pending(&self) -> (n: usize)
        ensures
            n == self@.queue.len(),
            forall|i: int|
                0 <= i < self@.queue.len() ==> under(
                    (#[trigger] self@.queue[i]).path(),
                    self@.watched,
                ),
    {
        proof {
            use_type_invariant(self);
        }
        self.queue.len()
    }

    /// Appends an event at the back of the queue. An event for a path outside
    /// the watched prefix is refused and the queue stays as it was.
    pub fn enqueue(&mut self, event: ChangeEvent) -> (accepted: bool)
        ensures
            accepted == under(event@.path(), old(self)@.watched),
            final(self)@ == (PipelineView {
                queue: if accepted {
                    old(self)@.queue.push(event@)
                } else {
                    old(self)@.queue
                },
                ..old(self)@
            }),
    {
        proof {
            use_type_invariant(&*self);
        }
        if is_under(event.path(), self.watched.as_str()) {
            let ghost before = self.queue.deep_view();
            let mut queue = VecDeque::new();
            core::mem::swap(&mut self.queue, &mut queue);
            queue.push_back(event);
            core::mem::swap(&mut self.queue, &mut queue);
            assert(self.queue.deep_view() =~= before.push(event@));
            true
        } else {
            false
        }
    }

    /// Translates one line of the audit feed and appends the change it
    /// reports, if it reports one.
    pub fn ingest_line(&mut self, line: &str) -> (queued: bool)
        ensures
            queued == translation(line@, old(self)@.watched) is Some,
            final(self)@ == (PipelineView {
                queue: match translation(line@, old(self)@.watched) {
                    Some(event) => old(self)@.queue.push(event),
                    None => old(self)@.queue,
                },
                ..old(self)@
            }),
    {
        match translate(line, self.watched.as_str()) {
            Some(event) => self.enqueue(event),
            None => false,
        }
    }

    /// Takes the oldest event out of the queue and says what to do with it.
    /// The event has then left the queue for good: where the call fails, it is
    /// for the caller to report, and it is not offered again.
    pub fn next(&mut self) -> (r: Option<Action>)
        ensures
            old(self)@.queue.len() == 0 ==> r is None && final(self)@ == old(self)@,
            old(self)@.queue.len() > 0 ==> r.deep_view() == Some(
                action_of(
                    old(self)@.queue[0],
                    old(self)@.watched,
                    old(self)@.destination,
                    old(self)@.dry_run,
                ),
            ) && final(self)@ == (PipelineView {
                queue: old(self)@.queue.drop_first(),
                ..old(self)@
            }),
            r matches Some(action) ==> old(self)@.destination.is_prefix_of(
                action@.operation().path(),
            ),
            r matches Some(action) ==> (bare(old(self)@.watched) ==> under(
                action@.operation().path(),
                old(self)@.destination,
            )),
            old(self)@.dry_run ==> !(r matches Some(Action::Issue(_))),
    {
        proof {
            use_type_invariant(&*self);
        }
        let ghost before = self.queue.deep_view();
        let mut queue = VecDeque::new();
        core::mem::swap(&mut self.queue, &mut queue);
        let oldest = queue.pop_front();
        core::mem::swap(&mut self.queue, &mut queue);
        match oldest {
            Some(event) => {
                assert(self.queue.deep_view() =~= before.drop_first());
                assert(event@ == before[0]);
                let operation = match event {
                    ChangeEvent::Put { path, value } => Operation::Write {
                        path: carry(
                            path.as_str(),
                            self.watched.as_str(),
                            self.destination.as_str(),
                        ),
                        value,
                    },
                    ChangeEvent::Delete { path } => Operation::Delete {
                        path: carry(
                            path.as_str(),
                            self.watched.as_str(),
                            self.destination.as_str(),
                        ),
                    },
                };
                proof {
                    rewritten_lies_in_destination(
                        before[0].path(),
                        self.watched@,
                        self.destination@,
                    );
                }
                if self.dry_run {
                    Some(Action::Announce(operation))
                } else {
                    Some(Action::Issue(operation))
                }
            },
            None => None,
        }
    }

    /// Empties the queue and says what to do with each event, oldest first.
    pub fn drain(&mut self) -> (actions: Vec<Action>)
        ensures
            actions.deep_view() == actions_of(
                old(self)@.queue,
                old(self)@.watched,
                old(self)@.destination,
                old(self)@.dry_run,
            ),
            final(self)@ == (PipelineView { queue: Seq::empty(), ..old(self)@ }),
            old(self)@.dry_run ==> issued(actions.deep_view()) == 0,
    {
        let ghost start = self@;
        let mut actions: Vec<Action> = Vec::new();
        while self.queue.len() > 0
            invariant
                self@ == (PipelineView { queue: self@.queue, ..start }),
                actions.len() + self@.queue.len() == start.queue.len(),
                self@.queue == start.queue.skip(actions.len() as int),
                actions.deep_view() == actions_of(
                    start.queue.take(actions.len() as int),
                    start.watched,
                    start.destination,
                    start.dry_run,
                ),
            decreases self@.queue.len(),
        {
            let ghost taken = actions.deep_view();
            let ghost n = actions.len() as int;
            match self.next() {
                Some(action) => {
                    actions.push(action);
                    assert(self@.queue =~= start.queue.skip(n + 1));
                    assert(actions.deep_view() =~= taken.push(action@));
                    assert(actions.deep_view() =~= actions_of(
                        start.queue.take(n + 1),
                        start.watched,
                        start.destination,
                        start.dry_run,
                    ));
                },
                None => {},
            }
        }
        proof {
            assert(start.queue.take(actions.len() as int) =~= start.queue);
            assert(self@.queue =~= Seq::<ChangeEventView>::empty());
            if start.dry_run {
                dry_run_issues_nothing(
                    Map::empty(),
                    start.queue,
                    start.watched,
                    start.destination,
                );
            }
        }
        actions
    }
}

/// The destination store as the laws see it: what is stored at each path.
pub type Store = Map<Seq<char>, Seq<char>>;

/// The store after one action. Only a call that is made changes it.
pub open spec fn performed(store: Store, action: ActionView) -> Store {
    match action {
        ActionView::Issue(OperationView::Write { path, value }) => store.insert(path, value),
        ActionView::Issue(OperationView::Delete { path }) => store.remove(path),
        ActionView::Announce(_) => store,
    }
}

/// The store after a run of actions, performed one after the other.
pub open spec fn performed_all(store: Store, actions: Seq<ActionView>) -> Store
    decreases actions.len(),
{
    if actions.len() == 0 {
        store
    } else {
        performed(performed_all(store, actions.drop_last()), actions.last())
    }
}

/// The number of calls that a run of actions makes on the destination.
pub open spec fn issued(actions: Seq<ActionView>) -> nat
    decreases actions.len(),
{
    if actions.len() == 0 {
        0
    } else {
        issued(actions.drop_last()) + if actions.last() is Issue {
            1nat
        } else {
            0nat
        }
    }
}

/// Dry run: whatever the events, no call is made on the destination and the
/// destination stays as it was.
pub proof fn dry_run_issues_nothing(
    store: Store,
    events: Seq<ChangeEventView>,
    watched: Seq<char>,
    destination: Seq<char>,
)
    ensures
        issued(actions_of(events, watched, destination, true)) == 0,
        performed_all(store, actions_of(events, watched, destination, true)) == store,
    decreases events.len(),
{
    let actions = actions_of(events, watched, destination, true);
    if events.len() > 0 {
        dry_run_issues_nothing(store, events.drop_last(), watched, destination);
        assert(actions.drop_last() =~= actions_of(events.drop_last(), watched, destination, true));
    }
}

/// The last event about a path decides what the destination holds there.
/// Given events under the watched prefix that are applied in order, let the
/// event at `last` be about the source path `x`, and let no later event be
/// about `x`. After the run, the rewritten path holds the value of that event
/// if it is a `Put`, and holds nothing if it is a `Delete`.
pub proof fn last_event_decides(
    store: Store,
    events: Seq<ChangeEventView>,
    last: int,
    watched: Seq<char>,
    destination: Seq<char>,
)
    requires
        0 <= last < events.len(),
        forall|i: int| 0 <= i < events.len() ==> under(#[trigger] events[i].path(), watched),
        forall|i: int| last < i < events.len() ==> #[trigger] events[i].path() != events[last].path(),
    ensures
        ({
            let after = performed_all(store, actions_of(events, watched, destination, false));
            let at = rewritten(events[last].path(), watched, destination);
            match events[last] {
                ChangeEventView::Put { value, .. } => after.contains_key(at) && after[at] == value,
                ChangeEventView::Delete { .. } => !after.contains_key(at),
            }
        }),
    decreases events.len(),
{
    let actions = actions_of(events, watched, destination, false);
    let front = events.drop_last();
    assert(actions.drop_last() =~= actions_of(front, watched, destination, false));
    if last < events.len() - 1 {
        last_event_decides(store, front, last, watched, destination);
        let other = events.last().path();
        assert(other != events[last].path());
        if rewritten(other, watched, destination) == rewritten(
            events[last].path(),
            watched,
            destination,
        ) {
            rewrite_is_injective(other, events[last].path(), watched, destination);
        }
    }
}

/// Two writes of the same path, applied in the order they were queued, leave
/// the value of the second at the destination.
pub proof fn second_put_wins(
    store: Store,
    x: Seq<char>,
    v1: Seq<char>,
    v2: Seq<char>,
    watched: Seq<char>,
    destination: Seq<char>,
)
    requires
        under(x, watched),
    ensures
        ({
            let events = seq![
                ChangeEventView::Put { path: x, value: v1 },
                ChangeEventView::Put { path: x, value: v2 },
            ];
            let after = performed_all(store, actions_of(events, watched, destination, false));
            after.contains_key(rewritten(x, watched, destination)) && after[rewritten(
                x,
                watched,
                destination,
            )] == v2
        }),
{
    let events = seq![
        ChangeEventView::Put { path: x, value: v1 },
        ChangeEventView::Put { path: x, value: v2 },
    ];
    last_event_decides(store, events, 1, watched, destination);
}

/// A successful write under the watched prefix ends as a write of the same
/// value at the rewritten path: the event that the record gives is applied
/// as a call that leaves the record's payload at the destination, at a path
/// that begins with the destination prefix, and that lies under it where the
/// watched prefix is bare.
pub proof fn audited_write_reaches_destination(
    store: Store,
    record: AuditRecordView,
    watched: Seq<char>,
    destination: Seq<char>,
)
    requires
        record.verb == Verb::Write,
        record.outcome == Outcome::Success,
        under(record.path, watched),
    ensures
        ({
            let action = action_of(event_of(record, watched)->0, watched, destination, false);
            let at = rewritten(record.path, watched, destination);
            &&& event_of(record, watched) is Some
            &&& action == ActionView::Issue(OperationView::Write { path: at, value: record.value })
            &&& destination.is_prefix_of(at)
            &&& bare(watched) ==> under(at, destination)
            &&& performed(store, action).contains_key(at)
            &&& performed(store, action)[at] == record.value
        }),
{
    rewritten_lies_in_destination(record.path, watched, destination);
}

} // verus!
