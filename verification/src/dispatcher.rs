//! The dispatcher of one subscription.
//!
//! The thread that receives a push only puts the snapshot in a queue and
//! returns. One worker per subscription takes the snapshots out again, one at
//! a time and oldest first, and calls the handler; the dispatcher tells it
//! which snapshot is next and learns from it when the call has returned. It
//! never hands out a second snapshot while a call is in progress.
use crate::error::{NacosError, NacosErrorView};
use crate::event::{error_view, PushEvent, PushEventView};
use std::collections::VecDeque;
use vstd::prelude::*;

verus! {

/// Stands for a callable of the host. The host keeps the callable and gives
/// it a number; the library only ever says which number is to be called.
#[derive(Clone, Copy, Debug, PartialEq, Eq, Structural)]
pub struct Handler {
    pub id: u64,
}

/// One call that is owed: this handler, with this snapshot.
#[derive(Debug, PartialEq, Eq)]
pub struct Delivery {
    pub handler: Handler,
    pub event: PushEvent,
}

/// The mathematical value of a [`Delivery`].
pub struct DeliveryView {
    pub handler: Handler,
    pub event: PushEventView,
}

impl View for Delivery {
    type V = DeliveryView;

    open spec fn view(&self) -> DeliveryView {
        DeliveryView { handler: self.handler, event: self.event@ }
    }
}

/// The value of a call that may be absent.
pub open spec fn delivery_view(delivery: Option<Delivery>) -> Option<DeliveryView> {
    match delivery {
        Some(delivery) => Some(delivery@),
        None => None,
    }
}

/// The values of a queue of snapshots, in order.
pub open spec fn event_views(queue: Seq<PushEvent>) -> Seq<PushEventView> {
    Seq::new(queue.len(), |i: int| queue[i]@)
}

/// What became of a pushed snapshot.
#[derive(Clone, Copy, Debug, PartialEq, Eq, Structural)]
pub enum PushOutcome {
    /// It waits in the queue of its subscription.
    Queued,
    /// Its subscription has no handler yet; it was dropped.
    NoHandler,
    /// Its dispatcher has been detached; it was dropped.
    Detached,
    /// Nobody is subscribed to its topic; it was dropped.
    Unknown,
    /// The client handle has been shut down; it was dropped.
    Closed,
}

/// The state of a dispatcher.
pub struct DispatcherView {
    /// The handler that the next snapshot goes to, if one is registered.
    pub handler: Option<Handler>,
    /// The snapshots that wait, oldest first.
    pub pending: Seq<PushEventView>,
    /// Whether a call of the handler is in progress.
    pub busy: bool,
    /// Whether the dispatcher still takes snapshots.
    pub attached: bool,
}

impl DispatcherView {
    /// A new dispatcher: attached, idle, nothing waiting.
    pub open spec fn fresh(handler: Option<Handler>) -> DispatcherView {
        DispatcherView { handler, pending: Seq::empty(), busy: false, attached: true }
    }

    /// Whether a pushed snapshot is queued.
    pub open spec fn accepts(self) -> bool {
        self.attached && self.handler is Some
    }

    /// What becomes of a snapshot pushed now.
    pub open spec fn push_outcome(self) -> PushOutcome {
        if !self.attached {
            PushOutcome::Detached
        } else if self.handler is None {
            PushOutcome::NoHandler
        } else {
            PushOutcome::Queued
        }
    }

    /// The state after a push: the snapshot is last in the queue, or, where
    /// it is not accepted, nothing has changed.
    pub open spec fn push(self, event: PushEventView) -> DispatcherView {
        if self.accepts() {
            DispatcherView { pending: self.pending.push(event), ..self }
        } else {
            self
        }
    }

    /// Whether a call may begin: only while none is in progress.
    pub open spec fn can_begin(self) -> bool {
        self.attached && !self.busy && self.handler is Some && self.pending.len() > 0
    }

    /// The call that begins now, if one may: the oldest waiting snapshot,
    /// to the handler registered at this moment.
    pub open spec fn next_delivery(self) -> Option<DeliveryView> {
        if self.can_begin() {
            Some(DeliveryView { handler: self.handler->Some_0, event: self.pending[0] })
        } else {
            None
        }
    }

    /// The state after the worker asked for the next call.
    pub open spec fn begin(self) -> DispatcherView {
        if self.can_begin() {
            DispatcherView { pending: self.pending.drop_first(), busy: true, ..self }
        } else {
            self
        }
    }

    /// The state after the handler returned, or failed: the same in both
    /// cases.
    pub open spec fn complete(self) -> DispatcherView {
        DispatcherView { busy: false, ..self }
    }

    /// The state after detaching: nothing waits any more and nothing is
    /// taken any more. A call in progress is not touched.
    pub open spec fn detach(self) -> DispatcherView {
        DispatcherView { pending: Seq::empty(), attached: false, ..self }
    }

    /// The state after another handler was registered: it gets whatever
    /// has not begun yet.
    pub open spec fn rebind(self, handler: Handler) -> DispatcherView {
        if self.attached {
            DispatcherView { handler: Some(handler), ..self }
        } else {
            self
        }
    }
}

/// What is logged for a call that failed, if it did.
pub open spec fn delivery_error(failure: Option<String>) -> Option<NacosErrorView> {
    match failure {
        Some(detail) => Some(NacosErrorView::Delivery(detail@)),
        None => None,
    }
}

/// The dispatcher of one subscription.
#[derive(Debug)]
pub struct Dispatcher {
    handler: Option<Handler>,
    pending: VecDeque<PushEvent>,
    busy: bool,
    attached: bool,
}

impl View for Dispatcher {
    type V = DispatcherView;

    closed spec fn view(&self) -> DispatcherView {
        DispatcherView {
            handler: self.handler,
            pending: event_views(self.pending@),
            busy: self.busy,
            attached: self.attached,
        }
    }
}

impl Dispatcher {
    /// A dispatcher for the given handler. Nothing is called here.
    pub fn attach(handler: Handler) -> (dispatcher: Dispatcher)
        ensures
            dispatcher@ == DispatcherView::fresh(Some(handler)),
    {
        let dispatcher = Dispatcher {
            handler: Some(handler),
            pending: VecDeque::new(),
            busy: false,
            attached: true,
        };
        assert(event_views(dispatcher.pending@) =~= Seq::empty());
        dispatcher
    }

    /// A dispatcher that has no handler yet.
    pub fn watching() -> (dispatcher: Dispatcher)
        ensures
            dispatcher@ == DispatcherView::fresh(None),
    {
        let dispatcher = Dispatcher {
            handler: None,
            pending: VecDeque::new(),
            busy: false,
            attached: true,
        };
        assert(event_views(dispatcher.pending@) =~= Seq::empty());
        dispatcher
    }

    /// Takes a pushed snapshot. This only queues: the handler is not
    /// called from here.
    pub fn on_push(&mut self, event: PushEvent) -> (outcome: PushOutcome)
        ensures
            final(self)@ == old(self)@.push(event@),
            outcome == old(self)@.push_outcome(),
    {
        if !self.attached {
            PushOutcome::Detached
        } else if self.handler.is_none() {
            PushOutcome::NoHandler
        } else {
            self.pending.push_back(event);
            assert(event_views(self.pending@) =~= event_views(old(self).pending@).push(event@));
            PushOutcome::Queued
        }
    }

    /// Hands out the next call, if one may begin, and counts it as in
    /// progress until [`Self::complete_delivery`] is called.
    pub fn begin_delivery(&mut self) -> (delivery: Option<Delivery>)
        ensures
            delivery_view(delivery) == old(self)@.next_delivery(),
            final(self)@ == old(self)@.begin(),
    {
        if !self.attached || self.busy {
            return None;
        }
        let handler = match self.handler {
            Some(handler) => handler,
            None => {
                return None;
            },
        };
        match self.pending.pop_front() {
            Some(event) => {
                self.busy = true;
                assert(event_views(self.pending@) =~= event_views(
                    old(self).pending@,
                ).drop_first());
                Some(Delivery { handler, event })
            },
            None => None,
        }
    }

    /// Learns that the call in progress has ended, and how. A failure is
    /// handed back for the log and changes nothing else: the next snapshot
    /// is delivered as if the call had succeeded.
    pub fn complete_delivery(&mut self, failure: Option<String>) -> (logged: Option<NacosError>)
        ensures
            final(self)@ == old(self)@.complete(),
            error_view(logged) == delivery_error(failure),
    {
        self.busy = false;
        match failure {
            Some(detail) => Some(NacosError::Delivery(detail)),
            None => None,
        }
    }

    /// Stops the dispatcher and says how many waiting snapshots were
    /// dropped for it.
    pub fn detach(&mut self) -> (dropped: usize)
        ensures
            final(self)@ == old(self)@.detach(),
            dropped == old(self)@.pending.len(),
    {
        broadcast use vstd::std_specs::vecdeque::axiom_spec_len;

        let dropped = self.pending.len();
        self.pending.clear();
        self.attached = false;
        assert(event_views(self.pending@) =~= Seq::empty());
        dropped
    }

    /// Registers another handler and hands back the one it replaces.
    pub fn rebind(&mut self, handler: Handler) -> (previous: Option<Handler>)
        ensures
            final(self)@ == old(self)@.rebind(handler),
            previous == old(self)@.handler,
    {
        let previous = self.handler;
        if self.attached {
            self.handler = Some(handler);
        }
        previous
    }

    /// The handler that the next snapshot goes to.
    pub fn handler(&self) -> (handler: Option<Handler>)
        ensures
            handler == self@.handler,
    {
        self.handler
    }

    /// Whether a call of the handler is in progress.
    pub fn is_busy(&self) -> (busy: bool)
        ensures
            busy == self@.busy,
    {
        self.busy
    }

    /// Whether the dispatcher still takes snapshots.
    pub fn is_attached(&self) -> (attached: bool)
        ensures
            attached == self@.attached,
    {
        self.attached
    }

    /// How many snapshots wait.
    pub fn pending_len(&self) -> (len: usize)
        ensures
            len == self@.pending.len(),
    {
        broadcast use vstd::std_specs::vecdeque::axiom_spec_len;

        self.pending.len()
    }
}

/// One thing that happens to a dispatcher.
pub enum Step {
    /// The server pushes a snapshot.
    Push(PushEventView),
    /// The worker asks for the next call.
    Begin,
    /// The handler returns or fails.
    Complete,
    /// The dispatcher is detached.
    Detach,
    /// Another handler is registered.
    Rebind(Handler),
}

/// The state after one step.
pub open spec fn after(state: DispatcherView, step: Step) -> DispatcherView {
    match step {
        Step::Push(event) => state.push(event),
        Step::Begin => state.begin(),
        Step::Complete => state.complete(),
        Step::Detach => state.detach(),
        Step::Rebind(handler) => state.rebind(handler),
    }
}

/// The state after a run of steps.
pub open spec fn after_all(state: DispatcherView, steps: Seq<Step>) -> DispatcherView
    decreases steps.len(),
{
    if steps.len() == 0 {
        state
    } else {
        after_all(after(state, steps[0]), steps.drop_first())
    }
}

/// The snapshot that a step puts in the queue, if it does.
pub open spec fn queued_by(state: DispatcherView, step: Step) -> Seq<PushEventView> {
    match step {
        Step::Push(event) => if state.accepts() {
            seq![event]
        } else {
            Seq::empty()
        },
        _ => Seq::empty(),
    }
}

/// The snapshot whose call a step begins, if it begins one.
pub open spec fn begun_by(state: DispatcherView, step: Step) -> Seq<PushEventView> {
    match step {
        Step::Begin => if state.can_begin() {
            seq![state.pending[0]]
        } else {
            Seq::empty()
        },
        _ => Seq::empty(),
    }
}

/// Whether a step ends a call that was in progress.
pub open spec fn ended_by(state: DispatcherView, step: Step) -> bool {
    step is Complete && state.busy
}

/// The snapshots that a run of steps puts in the queue, in order.
pub open spec fn queued(state: DispatcherView, steps: Seq<Step>) -> Seq<PushEventView>
    decreases steps.len(),
{
    if steps.len() == 0 {
        Seq::empty()
    } else {
        queued_by(state, steps[0]) + queued(after(state, steps[0]), steps.drop_first())
    }
}

/// The snapshots whose calls begin in a run of steps, in order.
pub open spec fn begun(state: DispatcherView, steps: Seq<Step>) -> Seq<PushEventView>
    decreases steps.len(),
{
    if steps.len() == 0 {
        Seq::empty()
    } else {
        begun_by(state, steps[0]) + begun(after(state, steps[0]), steps.drop_first())
    }
}

/// How many calls end in a run of steps.
pub open spec fn ended(state: DispatcherView, steps: Seq<Step>) -> nat
    decreases steps.len(),
{
    if steps.len() == 0 {
        0
    } else {
        let first: nat = if ended_by(state, steps[0]) {
            1
        } else {
            0
        };
        first + ended(after(state, steps[0]), steps.drop_first())
    }
}

/// How many calls are in progress: one or none.
pub open spec fn in_progress(state: DispatcherView) -> nat {
    if state.busy {
        1
    } else {
        0
    }
}

/// A detached dispatcher stays detached and begins no call, whatever
/// happens to it.
pub proof fn lemma_detached_is_silent(state: DispatcherView, steps: Seq<Step>)
    requires
        !state.attached,
    ensures
        !after_all(state, steps).attached,
        begun(state, steps) == Seq::<PushEventView>::empty(),
        queued(state, steps) == Seq::<PushEventView>::empty(),
    decreases steps.len(),
{
    if steps.len() > 0 {
        lemma_detached_is_silent(after(state, steps[0]), steps.drop_first());
    }
}

/// Snapshots reach the handler in the order in which they were pushed:
/// whatever happens to a dispatcher, and in whatever order, the snapshots
/// whose calls begin are, in this order, the first of those that waited at
/// the outset followed by those that were queued since. None is overtaken,
/// none is delivered twice, and none is made up.
pub proof fn lemma_delivery_in_push_order(state: DispatcherView, steps: Seq<Step>)
    ensures
        begun(state, steps).is_prefix_of(state.pending + queued(state, steps)),
    decreases steps.len(),
{
    if steps.len() > 0 {
        let step = steps[0];
        let next = after(state, step);
        let rest = steps.drop_first();
        lemma_delivery_in_push_order(next, rest);
        let tail = begun(next, rest);
        let later = next.pending + queued(next, rest);
        assert(tail =~= later.subrange(0, tail.len() as int));
        match step {
            Step::Push(event) => {
                assert(state.pending + queued(state, steps) =~= later);
                assert(begun(state, steps) =~= tail);
            },
            Step::Begin => {
                if state.can_begin() {
                    let whole = state.pending + queued(state, steps);
                    assert(whole =~= seq![state.pending[0]] + later);
                    assert(begun(state, steps) =~= seq![state.pending[0]] + tail);
                    assert(begun(state, steps) =~= whole.subrange(
                        0,
                        begun(state, steps).len() as int,
                    ));
                } else {
                    assert(state.pending + queued(state, steps) =~= later);
                    assert(begun(state, steps) =~= tail);
                }
            },
            Step::Complete => {
                assert(state.pending + queued(state, steps) =~= later);
                assert(begun(state, steps) =~= tail);
            },
            Step::Rebind(handler) => {
                assert(state.pending + queued(state, steps) =~= later);
                assert(begun(state, steps) =~= tail);
            },
            Step::Detach => {
                lemma_detached_is_silent(next, rest);
                assert(begun(state, steps) =~= Seq::<PushEventView>::empty());
            },
        }
    }
}

/// Calls of one handler never overlap: whatever happens to a dispatcher,
/// every call that has begun has also ended, but for at most the one that
/// is in progress at the end. So a call begins only after the one before it
/// has returned or failed.
pub proof fn lemma_one_call_at_a_time(state: DispatcherView, steps: Seq<Step>)
    ensures
        in_progress(state) + begun(state, steps).len() == ended(state, steps) + in_progress(
            after_all(state, steps),
        ),
        in_progress(after_all(state, steps)) <= 1,
    decreases steps.len(),
{
    if steps.len() > 0 {
        lemma_one_call_at_a_time(after(state, steps[0]), steps.drop_first());
    }
}

/// While a call is in progress no other begins, however many snapshots
/// wait.
pub proof fn lemma_busy_begins_nothing(state: DispatcherView)
    requires
        state.busy,
    ensures
        state.next_delivery() is None,
        state.begin() == state,
{
}

/// A failed call does not stop the deliveries: after it the next waiting
/// snapshot is handed out like after a call that returned.
pub proof fn lemma_failure_does_not_poison(state: DispatcherView)
    requires
        state.attached,
        state.handler is Some,
        state.pending.len() > 0,
    ensures
        state.complete().next_delivery() == Some(
            DeliveryView { handler: state.handler->Some_0, event: state.pending[0] },
        ),
{
}

} // verus!
