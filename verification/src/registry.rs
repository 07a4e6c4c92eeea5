//! The subscriptions of one client handle.
//!
//! A handle has at most one subscription per topic. Each subscription has a
//! dispatcher of its own, so what happens to one topic never touches
//! another. Subscribing to a topic that is already subscribed registers the
//! new handler in place of the old one and keeps queue and remote
//! subscription. Unsubscribing changes nothing. Shutting down ends every
//! subscription at once and for good.
use crate::dispatcher::{
    after, delivery_error, delivery_view, Delivery, DeliveryView, Dispatcher, DispatcherView,
    Handler, PushOutcome, Step,
};
use crate::error::{NacosError, NacosErrorView};
use crate::event::{error_view, PushEvent, PushEventView, Topic, TopicView};
use vstd::prelude::*;

verus! {

/// How a call to subscribe ended.
#[derive(Clone, Copy, Debug, PartialEq, Eq)]
pub enum Subscribed {
    /// The topic was not subscribed before. The remote subscription is
    /// still to be made.
    Created,
    /// The topic was subscribed already. The handler was registered in
    /// place of the previous one, if there was one.
    Rebound { previous: Option<Handler> },
}

/// The state of a registry.
pub struct RegistryView {
    /// Whether the handle has been shut down.
    pub closed: bool,
    /// The dispatcher of each subscribed topic.
    pub subs: Map<TopicView, DispatcherView>,
}

impl RegistryView {
    /// A registry with no subscription.
    pub open spec fn empty() -> RegistryView {
        RegistryView { closed: false, subs: Map::empty() }
    }

    /// Whether every dispatcher in it still takes snapshots. A registry
    /// never keeps a dispatcher that has been detached: it removes the
    /// subscription instead.
    pub open spec fn wf(self) -> bool {
        forall|topic: TopicView|
            self.subs.dom().contains(topic) ==> (#[trigger] self.subs[topic]).attached
    }

    /// Whether a topic is subscribed.
    pub open spec fn has(self, topic: TopicView) -> bool {
        !self.closed && self.subs.dom().contains(topic)
    }

    /// How a call to subscribe ends now.
    pub open spec fn subscribe_result(self, topic: TopicView) -> Result<Subscribed, NacosErrorView> {
        if self.closed {
            Err(NacosErrorView::Closed)
        } else if self.subs.dom().contains(topic) {
            Ok(Subscribed::Rebound { previous: self.subs[topic].handler })
        } else {
            Ok(Subscribed::Created)
        }
    }

    /// The state after a call to subscribe.
    pub open spec fn subscribe(self, topic: TopicView, handler: Handler) -> RegistryView {
        if self.closed {
            self
        } else if self.subs.dom().contains(topic) {
            RegistryView { subs: self.subs.insert(topic, self.subs[topic].rebind(handler)), ..self }
        } else {
            RegistryView {
                subs: self.subs.insert(topic, DispatcherView::fresh(Some(handler))),
                ..self
            }
        }
    }

    /// Whether a call to watch makes a subscription.
    pub open spec fn watch_creates(self, topic: TopicView) -> bool {
        !self.closed && !self.subs.dom().contains(topic)
    }

    /// The state after a call to watch: the topic is subscribed, without a
    /// handler if it was not subscribed before.
    pub open spec fn watch(self, topic: TopicView) -> RegistryView {
        if self.watch_creates(topic) {
            RegistryView { subs: self.subs.insert(topic, DispatcherView::fresh(None)), ..self }
        } else {
            self
        }
    }

    /// What becomes of a snapshot pushed now.
    pub open spec fn push_outcome(self, topic: TopicView) -> PushOutcome {
        if self.closed {
            PushOutcome::Closed
        } else if !self.subs.dom().contains(topic) {
            PushOutcome::Unknown
        } else {
            self.subs[topic].push_outcome()
        }
    }

    /// The state after a push.
    pub open spec fn push(self, topic: TopicView, event: PushEventView) -> RegistryView {
        if self.has(topic) {
            RegistryView { subs: self.subs.insert(topic, self.subs[topic].push(event)), ..self }
        } else {
            self
        }
    }

    /// The call that begins now for a topic, if one may.
    pub open spec fn next_delivery(self, topic: TopicView) -> Option<DeliveryView> {
        if self.has(topic) {
            self.subs[topic].next_delivery()
        } else {
            None
        }
    }

    /// The state after the worker of a topic asked for the next call.
    pub open spec fn begin(self, topic: TopicView) -> RegistryView {
        if self.has(topic) {
            RegistryView { subs: self.subs.insert(topic, self.subs[topic].begin()), ..self }
        } else {
            self
        }
    }

    /// The state after the handler of a topic returned or failed.
    pub open spec fn complete(self, topic: TopicView) -> RegistryView {
        if self.has(topic) {
            RegistryView { subs: self.subs.insert(topic, self.subs[topic].complete()), ..self }
        } else {
            self
        }
    }

    /// The state after a subscription was given up.
    pub open spec fn cancel(self, topic: TopicView) -> RegistryView {
        if self.has(topic) {
            RegistryView { subs: self.subs.remove(topic), ..self }
        } else {
            self
        }
    }

    /// The state after shutting down.
    pub open spec fn shutdown(self) -> RegistryView {
        RegistryView { closed: true, subs: Map::empty() }
    }
}

/// The value of what a call to subscribe gave.
pub open spec fn subscribed_view(result: Result<Subscribed, NacosError>) -> Result<
    Subscribed,
    NacosErrorView,
> {
    match result {
        Ok(subscribed) => Ok(subscribed),
        Err(err) => Err(err@),
    }
}

/// The topics that occur in a list.
pub open spec fn topics_of(list: Seq<Topic>) -> Set<TopicView> {
    Set::new(|topic: TopicView| exists|i: int| 0 <= i < list.len() && (#[trigger] list[i])@ == topic)
}

/// A topic with its dispatcher.
#[derive(Debug)]
pub struct Subscription {
    topic: Topic,
    dispatcher: Dispatcher,
}

/// The subscriptions of one client handle.
#[derive(Debug)]
pub struct SubscriptionRegistry {
    entries: Vec<Subscription>,
    closed: bool,
}

spec fn table_of(entries: Seq<Subscription>) -> Seq<(TopicView, DispatcherView)> {
    Seq::new(entries.len(), |i: int| (entries[i].topic@, entries[i].dispatcher@))
}

spec fn keyed(table: Seq<(TopicView, DispatcherView)>, topic: TopicView) -> bool {
    exists|i: int| 0 <= i < table.len() && (#[trigger] table[i]).0 == topic
}

spec fn slot(table: Seq<(TopicView, DispatcherView)>, topic: TopicView) -> int {
    choose|i: int| 0 <= i < table.len() && (#[trigger] table[i]).0 == topic
}

spec fn as_map(table: Seq<(TopicView, DispatcherView)>) -> Map<TopicView, DispatcherView> {
    Map::new(|topic: TopicView| keyed(table, topic), |topic: TopicView| table[slot(table, topic)].1)
}

spec fn distinct(table: Seq<(TopicView, DispatcherView)>) -> bool {
    forall|i: int, j: int|
        0 <= i < j < table.len() ==> (#[trigger] table[i]).0 != (#[trigger] table[j]).0
}

spec fn sound(table: Seq<(TopicView, DispatcherView)>) -> bool {
    distinct(table) && forall|i: int| 0 <= i < table.len() ==> (#[trigger] table[i]).1.attached
}

proof fn lemma_slot(table: Seq<(TopicView, DispatcherView)>, i: int)
    requires
        distinct(table),
        0 <= i < table.len(),
    ensures
        keyed(table, table[i].0),
        slot(table, table[i].0) == i,
        as_map(table).dom().contains(table[i].0),
        as_map(table)[table[i].0] == table[i].1,
{
    let topic = table[i].0;
    assert(keyed(table, topic));
    let j = slot(table, topic);
    assert(0 <= j < table.len() && table[j].0 == topic);
    if j < i {
        assert(table[j].0 != table[i].0);
    } else if i < j {
        assert(table[i].0 != table[j].0);
    }
}

proof fn lemma_absent(table: Seq<(TopicView, DispatcherView)>, topic: TopicView)
    requires
        forall|i: int| 0 <= i < table.len() ==> (#[trigger] table[i]).0 != topic,
    ensures
        !as_map(table).dom().contains(topic),
{
}

proof fn lemma_update(table: Seq<(TopicView, DispatcherView)>, i: int, state: DispatcherView)
    requires
        sound(table),
        0 <= i < table.len(),
        state.attached,
    ensures
        sound(table.update(i, (table[i].0, state))),
        as_map(table.update(i, (table[i].0, state))) == as_map(table).insert(table[i].0, state),
{
    let changed = table.update(i, (table[i].0, state));
    assert forall|k: int| 0 <= k < changed.len() implies (#[trigger] changed[k]).1.attached by {
        if k != i {
            assert(changed[k] == table[k]);
        }
    }
    assert(forall|k: int| 0 <= k < table.len() ==> (#[trigger] changed[k]).0 == table[k].0);
    assert(distinct(changed));
    assert forall|topic: TopicView| keyed(changed, topic) == keyed(table, topic) by {
        if keyed(changed, topic) {
            let k = slot(changed, topic);
            assert(table[k].0 == topic);
        }
        if keyed(table, topic) {
            let k = slot(table, topic);
            assert(changed[k].0 == topic);
        }
    }
    assert forall|topic: TopicView| keyed(changed, topic) implies #[trigger] as_map(changed)[topic]
        == as_map(table).insert(table[i].0, state)[topic] by {
        let k = slot(changed, topic);
        lemma_slot(changed, k);
        lemma_slot(table, k);
    }
    lemma_slot(table, i);
    assert(as_map(changed) =~= as_map(table).insert(table[i].0, state));
}

proof fn lemma_push(
    table: Seq<(TopicView, DispatcherView)>,
    topic: TopicView,
    state: DispatcherView,
)
    requires
        sound(table),
        forall|i: int| 0 <= i < table.len() ==> (#[trigger] table[i]).0 != topic,
        state.attached,
    ensures
        sound(table.push((topic, state))),
        as_map(table.push((topic, state))) == as_map(table).insert(topic, state),
{
    let grown = table.push((topic, state));
    assert(forall|k: int| 0 <= k < table.len() ==> (#[trigger] grown[k]) == table[k]);
    assert(grown[table.len() as int] == (topic, state));
    assert(distinct(grown));
    assert forall|key: TopicView| keyed(grown, key) == (keyed(table, key) || key == topic) by {
        if keyed(grown, key) {
            let k = slot(grown, key);
            if k < table.len() {
                assert(table[k].0 == key);
            }
        }
        if keyed(table, key) {
            let k = slot(table, key);
            assert(grown[k].0 == key);
        }
        if key == topic {
            assert(grown[table.len() as int].0 == key);
        }
    }
    assert forall|key: TopicView| keyed(grown, key) implies #[trigger] as_map(grown)[key] == as_map(
        table,
    ).insert(topic, state)[key] by {
        let k = slot(grown, key);
        lemma_slot(grown, k);
        if k < table.len() {
            lemma_slot(table, k);
        }
    }
    assert(as_map(grown) =~= as_map(table).insert(topic, state));
}

proof fn lemma_remove(table: Seq<(TopicView, DispatcherView)>, i: int)
    requires
        sound(table),
        0 <= i < table.len(),
    ensures
        sound(table.remove(i)),
        as_map(table.remove(i)) == as_map(table).remove(table[i].0),
{
    let shrunk = table.remove(i);
    assert(forall|k: int| 0 <= k < i ==> (#[trigger] shrunk[k]) == table[k]);
    assert(forall|k: int| i <= k < shrunk.len() ==> (#[trigger] shrunk[k]) == table[k + 1]);
    assert(distinct(shrunk)) by {
        assert forall|a: int, b: int| 0 <= a < b < shrunk.len() implies (#[trigger] shrunk[a]).0
            != (#[trigger] shrunk[b]).0 by {
            let a0 = if a < i {
                a
            } else {
                a + 1
            };
            let b0 = if b < i {
                b
            } else {
                b + 1
            };
            assert(table[a0].0 != table[b0].0);
        }
    }
    assert forall|k: int| 0 <= k < shrunk.len() implies (#[trigger] shrunk[k]).1.attached by {
        let k0 = if k < i {
            k
        } else {
            k + 1
        };
        assert(table[k0].1.attached);
    }
    assert forall|key: TopicView| keyed(shrunk, key) == (keyed(table, key) && key != table[i].0) by {
        if keyed(shrunk, key) {
            let k = slot(shrunk, key);
            let k0 = if k < i {
                k
            } else {
                k + 1
            };
            assert(table[k0].0 == key);
            if k0 < i {
                assert(table[k0].0 != table[i].0);
            } else {
                assert(table[i].0 != table[k0].0);
            }
        }
        if keyed(table, key) && key != table[i].0 {
            let k = slot(table, key);
            let k1 = if k < i {
                k
            } else {
                k - 1
            };
            assert(shrunk[k1].0 == key);
        }
    }
    assert forall|key: TopicView| keyed(shrunk, key) implies #[trigger] as_map(shrunk)[key]
        == as_map(table).remove(table[i].0)[key] by {
        let k = slot(shrunk, key);
        lemma_slot(shrunk, k);
        let k0 = if k < i {
            k
        } else {
            k + 1
        };
        lemma_slot(table, k0);
    }
    assert(as_map(shrunk) =~= as_map(table).remove(table[i].0));
}

impl View for SubscriptionRegistry {
    type V = RegistryView;

    closed spec fn view(&self) -> RegistryView {
        RegistryView { closed: self.closed, subs: as_map(table_of(self.entries@)) }
    }
}

impl SubscriptionRegistry {
    /// Whether no topic is held twice and no dispatcher is kept that has
    /// been detached.
    pub closed spec fn wf(&self) -> bool {
        sound(table_of(self.entries@))
    }

    /// In a well-formed registry every dispatcher still takes snapshots.
    pub proof fn lemma_subscriptions_are_attached(&self)
        requires
            self.wf(),
        ensures
            self@.wf(),
    {
        let table = table_of(self.entries@);
        assert forall|topic: TopicView| self@.subs.dom().contains(topic) implies (
        #[trigger] self@.subs[topic]).attached by {
            let k = slot(table, topic);
            assert(table[k].1.attached);
        }
    }

    /// A registry with no subscription.
    pub fn new() -> (registry: SubscriptionRegistry)
        ensures
            registry.wf(),
            registry@ == RegistryView::empty(),
    {
        let registry = SubscriptionRegistry { entries: Vec::new(), closed: false };
        assert(registry@.subs =~= Map::empty());
        registry
    }

    fn position(&self, topic: &Topic) -> (found: Option<usize>)
        ensures
            match found {
                Some(i) => i < self.entries.len() && self.entries[i as int].topic@ == topic@,
                None => forall|k: int|
                    0 <= k < self.entries.len() ==> (#[trigger] self.entries[k]).topic@ != topic@,
            },
    {
        let mut i: usize = 0;
        while i < self.entries.len()
            invariant
                i <= self.entries.len(),
                forall|k: int| 0 <= k < i ==> (#[trigger] self.entries[k]).topic@ != topic@,
            decreases self.entries.len() - i,
        {
            if self.entries[i].topic.same(topic) {
                return Some(i);
            }
            i += 1;
        }
        None
    }

    proof fn lemma_found(&self, i: int)
        requires
            self.wf(),
            0 <= i < self.entries.len(),
        ensures
            self@.subs.dom().contains(self.entries[i].topic@),
            self@.subs[self.entries[i].topic@] == self.entries[i].dispatcher@,
            self.entries[i].dispatcher@.attached,
    {
        lemma_slot(table_of(self.entries@), i);
        assert(table_of(self.entries@)[i].1.attached);
    }

    proof fn lemma_not_found(&self, topic: TopicView)
        requires
            forall|k: int|
                0 <= k < self.entries.len() ==> (#[trigger] self.entries[k]).topic@ != topic,
        ensures
            !self@.subs.dom().contains(topic),
    {
        let table = table_of(self.entries@);
        assert forall|k: int| 0 <= k < table.len() implies (#[trigger] table[k]).0 != topic by {
            assert(self.entries[k].topic@ != topic);
        }
        lemma_absent(table, topic);
    }

    /// Takes a snapshot pushed for a topic and queues it with the topic's
    /// dispatcher. No handler is called from here, and no other topic is
    /// touched.
    pub fn on_push(&mut self, topic: &Topic, event: PushEvent) -> (outcome: PushOutcome)
        requires
            old(self).wf(),
        ensures
            final(self).wf(),
            final(self)@ == old(self)@.push(topic@, event@),
            outcome == old(self)@.push_outcome(topic@),
    {
        if self.closed {
            return PushOutcome::Closed;
        }
        match self.position(topic) {
            Some(i) => {
                proof {
                    self.lemma_found(i as int);
                    lemma_update(
                        table_of(self.entries@),
                        i as int,
                        self.entries[i as int].dispatcher@.push(event@),
                    );
                }
                let ghost before = table_of(self.entries@);
                let outcome = self.entries[i].dispatcher.on_push(event);
                assert(table_of(self.entries@) =~= before.update(
                    i as int,
                    (before[i as int].0, before[i as int].1.push(event@)),
                ));
                outcome
            },
            None => {
                proof {
                    self.lemma_not_found(topic@);
                }
                PushOutcome::Unknown
            },
        }
    }

    /// Hands out the next call for a topic, if one may begin: the oldest
    /// waiting snapshot of this topic, and only while no call of this topic
    /// is in progress. What other topics are doing has no part in it.
    pub fn begin_delivery(&mut self, topic: &Topic) -> (delivery: Option<Delivery>)
        requires
            old(self).wf(),
        ensures
            final(self).wf(),
            final(self)@ == old(self)@.begin(topic@),
            delivery_view(delivery) == old(self)@.next_delivery(topic@),
    {
        if self.closed {
            return None;
        }
        match self.position(topic) {
            Some(i) => {
                proof {
                    self.lemma_found(i as int);
                    lemma_update(
                        table_of(self.entries@),
                        i as int,
                        self.entries[i as int].dispatcher@.begin(),
                    );
                }
                let ghost before = table_of(self.entries@);
                let delivery = self.entries[i].dispatcher.begin_delivery();
                assert(table_of(self.entries@) =~= before.update(
                    i as int,
                    (before[i as int].0, before[i as int].1.begin()),
                ));
                delivery
            },
            None => {
                proof {
                    self.lemma_not_found(topic@);
                }
                None
            },
        }
    }

    /// Learns that the call in progress for a topic has ended, and how. A
    /// failure is handed back for the log and goes nowhere else. This is
    /// accepted at any time, also after the subscription has gone.
    pub fn complete_delivery(&mut self, topic: &Topic, failure: Option<String>) -> (logged: Option<
        NacosError,
    >)
        requires
            old(self).wf(),
        ensures
            final(self).wf(),
            final(self)@ == old(self)@.complete(topic@),
            error_view(logged) == delivery_error(failure),
    {
        if self.closed {
            return Self::log_entry(failure);
        }
        match self.position(topic) {
            Some(i) => {
                proof {
                    self.lemma_found(i as int);
                    lemma_update(
                        table_of(self.entries@),
                        i as int,
                        self.entries[i as int].dispatcher@.complete(),
                    );
                }
                let ghost before = table_of(self.entries@);
                let logged = self.entries[i].dispatcher.complete_delivery(failure);
                assert(table_of(self.entries@) =~= before.update(
                    i as int,
                    (before[i as int].0, before[i as int].1.complete()),
                ));
                logged
            },
            None => {
                proof {
                    self.lemma_not_found(topic@);
                }
                Self::log_entry(failure)
            },
        }
    }

    fn log_entry(failure: Option<String>) -> (logged: Option<NacosError>)
        ensures
            error_view(logged) == delivery_error(failure),
    {
        match failure {
            Some(detail) => Some(NacosError::Delivery(detail)),
            None => None,
        }
    }

    /// Subscribes a handler to a topic. On a handle that has been shut
    /// down this fails. On a topic that is subscribed already the handler
    /// takes the place of the previous one; else a subscription is made.
    pub fn subscribe(&mut self, topic: Topic, handler: Handler) -> (result: Result<
        Subscribed,
        NacosError,
    >)
        requires
            old(self).wf(),
        ensures
            final(self).wf(),
            final(self)@ == old(self)@.subscribe(topic@, handler),
            subscribed_view(result) == old(self)@.subscribe_result(topic@),
    {
        if self.closed {
            return Err(NacosError::Closed);
        }
        match self.position(&topic) {
            Some(i) => {
                proof {
                    self.lemma_found(i as int);
                    lemma_update(
                        table_of(self.entries@),
                        i as int,
                        self.entries[i as int].dispatcher@.rebind(handler),
                    );
                }
                let ghost before = table_of(self.entries@);
                let previous = self.entries[i].dispatcher.rebind(handler);
                assert(table_of(self.entries@) =~= before.update(
                    i as int,
                    (before[i as int].0, before[i as int].1.rebind(handler)),
                ));
                Ok(Subscribed::Rebound { previous })
            },
            None => {
                proof {
                    self.lemma_not_found(topic@);
                    let table = table_of(self.entries@);
                    assert forall|k: int| 0 <= k < table.len() implies (#[trigger] table[k]).0
                        != topic@ by {
                        assert(self.entries[k].topic@ != topic@);
                    }
                    lemma_push(table, topic@, DispatcherView::fresh(Some(handler)));
                }
                let ghost before = table_of(self.entries@);
                self.entries.push(Subscription { topic, dispatcher: Dispatcher::attach(handler) });
                assert(table_of(self.entries@) =~= before.push(
                    (topic@, DispatcherView::fresh(Some(handler))),
                ));
                Ok(Subscribed::Created)
            },
        }
    }

    /// Makes sure that a topic is subscribed, with or without a handler,
    /// and says whether a subscription had to be made for it. On a handle
    /// that has been shut down nothing is made.
    pub fn watch(&mut self, topic: Topic) -> (created: bool)
        requires
            old(self).wf(),
        ensures
            final(self).wf(),
            final(self)@ == old(self)@.watch(topic@),
            created == old(self)@.watch_creates(topic@),
    {
        if self.closed {
            return false;
        }
        match self.position(&topic) {
            Some(i) => {
                proof {
                    self.lemma_found(i as int);
                }
                false
            },
            None => {
                proof {
                    self.lemma_not_found(topic@);
                    let table = table_of(self.entries@);
                    assert forall|k: int| 0 <= k < table.len() implies (#[trigger] table[k]).0
                        != topic@ by {
                        assert(self.entries[k].topic@ != topic@);
                    }
                    lemma_push(table, topic@, DispatcherView::fresh(None));
                }
                let ghost before = table_of(self.entries@);
                self.entries.push(Subscription { topic, dispatcher: Dispatcher::watching() });
                assert(table_of(self.entries@) =~= before.push(
                    (topic@, DispatcherView::fresh(None)),
                ));
                true
            },
        }
    }

    /// Reports success and changes nothing: the subscription stays, the
    /// remote side keeps pushing, and the handler registered last keeps
    /// being called.
    pub fn unsubscribe(&self, topic: &Topic) -> (result: Result<(), NacosError>)
        ensures
            result is Ok,
    {
        Ok(())
    }

    /// Gives a subscription up, as after a remote subscription that could
    /// not be made, and says how many waiting snapshots went with it.
    pub fn cancel(&mut self, topic: &Topic) -> (dropped: Option<usize>)
        requires
            old(self).wf(),
        ensures
            final(self).wf(),
            final(self)@ == old(self)@.cancel(topic@),
            dropped == if old(self)@.has(topic@) {
                Some(old(self)@.subs[topic@].pending.len() as usize)
            } else {
                None
            },
    {
        if self.closed {
            return None;
        }
        match self.position(topic) {
            Some(i) => {
                proof {
                    self.lemma_found(i as int);
                    lemma_remove(table_of(self.entries@), i as int);
                }
                let ghost before = table_of(self.entries@);
                let gone = self.entries.remove(i);
                assert(table_of(self.entries@) =~= before.remove(i as int));
                Some(gone.dispatcher.pending_len())
            },
            None => {
                proof {
                    self.lemma_not_found(topic@);
                }
                None
            },
        }
    }

    /// Ends every subscription and closes the handle for good. The topics
    /// that were subscribed are handed back, each once, so that their remote
    /// subscriptions can be released. A call that is in progress is left to
    /// finish on its own; nothing waits for it, and after this no call
    /// begins any more.
    pub fn shutdown_all(&mut self) -> (released: Vec<Topic>)
        requires
            old(self).wf(),
        ensures
            final(self).wf(),
            final(self)@ == old(self)@.shutdown(),
            topics_of(released@) == old(self)@.subs.dom(),
            forall|i: int, j: int|
                0 <= i < j < released.len() ==> (#[trigger] released[i])@ != (
                #[trigger] released[j])@,
    {
        let ghost table = table_of(self.entries@);
        let ghost total = self.entries.len() as int;
        let mut released: Vec<Topic> = Vec::new();
        while self.entries.len() > 0
            invariant
                table == table_of(old(self).entries@),
                total == table.len(),
                sound(table),
                self.entries.len() + released.len() == total,
                table_of(self.entries@) == table.subrange(0, self.entries.len() as int),
                forall|k: int|
                    0 <= k < released.len() ==> (#[trigger] released[k])@ == table[total - 1 - k].0,
            decreases self.entries.len(),
        {
            let ghost before = self.entries@;
            let last = self.entries.pop();
            match last {
                Some(gone) => {
                    assert(gone.topic@ == table_of(before)[before.len() - 1].0);
                    released.push(gone.topic);
                    assert(table_of(self.entries@) =~= table.subrange(
                        0,
                        self.entries.len() as int,
                    ));
                },
                None => {},
            }
        }
        self.closed = true;
        proof {
            assert(table_of(self.entries@) =~= Seq::empty());
            assert(self@.subs =~= Map::empty());
            assert forall|i: int, j: int| 0 <= i < j < released.len() implies (
            #[trigger] released[i])@ != (#[trigger] released[j])@ by {
                assert(table[total - 1 - j].0 != table[total - 1 - i].0);
            }
            assert forall|topic: TopicView| topics_of(released@).contains(topic) == as_map(
                table,
            ).dom().contains(topic) by {
                if topics_of(released@).contains(topic) {
                    let k = choose|k: int|
                        0 <= k < released.len() && (#[trigger] released[k])@ == topic;
                    assert(table[total - 1 - k].0 == topic);
                }
                if keyed(table, topic) {
                    let k = slot(table, topic);
                    assert(released[total - 1 - k]@ == topic);
                }
            }
            assert(topics_of(released@) =~= old(self)@.subs.dom());
        }
        released
    }

    /// Whether the handle has been shut down.
    pub fn is_closed(&self) -> (closed: bool)
        ensures
            closed == self@.closed,
    {
        self.closed
    }

    /// Whether a topic is subscribed.
    pub fn contains(&self, topic: &Topic) -> (found: bool)
        requires
            self.wf(),
        ensures
            found == self@.has(topic@),
    {
        if self.closed {
            return false;
        }
        match self.position(topic) {
            Some(i) => {
                proof {
                    self.lemma_found(i as int);
                }
                true
            },
            None => {
                proof {
                    self.lemma_not_found(topic@);
                }
                false
            },
        }
    }

    /// The handler registered for a topic.
    pub fn handler_of(&self, topic: &Topic) -> (handler: Option<Handler>)
        requires
            self.wf(),
        ensures
            handler == if self@.has(topic@) {
                self@.subs[topic@].handler
            } else {
                None
            },
    {
        if self.closed {
            return None;
        }
        match self.position(topic) {
            Some(i) => {
                proof {
                    self.lemma_found(i as int);
                }
                self.entries[i].dispatcher.handler()
            },
            None => {
                proof {
                    self.lemma_not_found(topic@);
                }
                None
            },
        }
    }

    /// How many snapshots wait for a topic.
    pub fn pending_len(&self, topic: &Topic) -> (len: usize)
        requires
            self.wf(),
        ensures
            len == if self@.has(topic@) {
                self@.subs[topic@].pending.len()
            } else {
                0
            },
    {
        if self.closed {
            return 0;
        }
        match self.position(topic) {
            Some(i) => {
                proof {
                    self.lemma_found(i as int);
                }
                self.entries[i].dispatcher.pending_len()
            },
            None => {
                proof {
                    self.lemma_not_found(topic@);
                }
                0
            },
        }
    }

    /// Whether a call of a topic's handler is in progress.
    pub fn is_busy(&self, topic: &Topic) -> (busy: bool)
        requires
            self.wf(),
        ensures
            busy == (self@.has(topic@) && self@.subs[topic@].busy),
    {
        if self.closed {
            return false;
        }
        match self.position(topic) {
            Some(i) => {
                proof {
                    self.lemma_found(i as int);
                }
                self.entries[i].dispatcher.is_busy()
            },
            None => {
                proof {
                    self.lemma_not_found(topic@);
                }
                false
            },
        }
    }
}

/// One thing that happens to the subscription of a topic.
pub enum TopicStep {
    /// A handler is subscribed.
    Subscribe(Handler),
    /// The topic is watched.
    Watch,
    /// The host unsubscribes.
    Unsubscribe,
    /// The server pushes a snapshot.
    Push(PushEventView),
    /// The topic's worker asks for the next call.
    Begin,
    /// The topic's handler returns or fails.
    Complete,
    /// The subscription is given up.
    Cancel,
}

/// A step together with the topic that it happens to.
pub struct Happening {
    pub topic: TopicView,
    pub step: TopicStep,
}

/// The state after one step on one topic.
pub open spec fn after_step(state: RegistryView, topic: TopicView, step: TopicStep) -> RegistryView {
    match step {
        TopicStep::Subscribe(handler) => state.subscribe(topic, handler),
        TopicStep::Watch => state.watch(topic),
        TopicStep::Unsubscribe => state,
        TopicStep::Push(event) => state.push(topic, event),
        TopicStep::Begin => state.begin(topic),
        TopicStep::Complete => state.complete(topic),
        TopicStep::Cancel => state.cancel(topic),
    }
}

/// The state after a run of steps on any topics.
pub open spec fn after_steps(state: RegistryView, steps: Seq<Happening>) -> RegistryView
    decreases steps.len(),
{
    if steps.len() == 0 {
        state
    } else {
        after_steps(after_step(state, steps[0].topic, steps[0].step), steps.drop_first())
    }
}

/// What a topic's dispatcher goes through when a snapshot is pushed for
/// the topic, a call is asked for, or a call ends: exactly the step of that
/// name, so that all that holds of a dispatcher holds of every subscribed
/// topic.
pub proof fn lemma_topic_follows_its_dispatcher(state: RegistryView, topic: TopicView, step: Step)
    requires
        state.has(topic),
        step is Push || step is Begin || step is Complete,
    ensures
        match step {
            Step::Push(event) => state.push(topic, event).subs[topic] == after(
                state.subs[topic],
                step,
            ),
            Step::Begin => state.begin(topic).subs[topic] == after(state.subs[topic], step)
                && state.next_delivery(topic) == state.subs[topic].next_delivery(),
            _ => state.complete(topic).subs[topic] == after(state.subs[topic], step),
        },
{
}

/// Topics do not wait for each other: whatever happens to other topics,
/// and however long their handlers take, a topic keeps its subscription, its
/// queue and its idle worker, and the call that may begin for it is the one
/// that might have begun before.
pub proof fn lemma_topics_are_independent(
    state: RegistryView,
    steps: Seq<Happening>,
    topic: TopicView,
)
    requires
        forall|i: int| 0 <= i < steps.len() ==> (#[trigger] steps[i]).topic != topic,
    ensures
        after_steps(state, steps).closed == state.closed,
        after_steps(state, steps).subs.dom().contains(topic) == state.subs.dom().contains(topic),
        state.subs.dom().contains(topic) ==> after_steps(state, steps).subs[topic]
            == state.subs[topic],
        after_steps(state, steps).next_delivery(topic) == state.next_delivery(topic),
    decreases steps.len(),
{
    if steps.len() > 0 {
        let next = after_step(state, steps[0].topic, steps[0].step);
        let rest = steps.drop_first();
        assert(steps[0].topic != topic);
        assert forall|i: int| 0 <= i < rest.len() implies (#[trigger] rest[i]).topic != topic by {
            assert(rest[i] == steps[i + 1]);
        }
        lemma_topics_are_independent(next, rest, topic);
    }
}

/// A call in progress for one topic does not hold up another: the other
/// topic's next call begins as if the first topic were idle.
pub proof fn lemma_busy_topic_blocks_no_other(
    state: RegistryView,
    slow: TopicView,
    other: TopicView,
)
    requires
        slow != other,
        state.has(slow),
        state.subs[slow].busy,
        state.has(other),
        state.subs[other].can_begin(),
    ensures
        state.next_delivery(other) == Some(
            DeliveryView {
                handler: state.subs[other].handler->Some_0,
                event: state.subs[other].pending[0],
            },
        ),
{
}

/// The snapshots that wait for a topic; none where it is not subscribed.
pub open spec fn waiting(state: RegistryView, topic: TopicView) -> Seq<PushEventView> {
    if state.has(topic) {
        state.subs[topic].pending
    } else {
        Seq::empty()
    }
}

/// A snapshot pushed right after subscribing is delivered to the new
/// handler, and once. It is queued, one time, behind what waited for the
/// topic before, and the handler of the topic is the new one. Where nothing
/// waited and no call was in progress it is the call that begins next, and
/// neither while that call runs nor after it has ended is there another.
pub proof fn lemma_push_after_subscribe_is_delivered_once(
    state: RegistryView,
    topic: TopicView,
    handler: Handler,
    event: PushEventView,
)
    requires
        state.wf(),
        !state.closed,
    ensures
        state.subscribe(topic, handler).wf(),
        state.subscribe(topic, handler).push_outcome(topic) == PushOutcome::Queued,
        state.subscribe(topic, handler).push(topic, event).subs[topic].handler == Some(handler),
        state.subscribe(topic, handler).push(topic, event).subs[topic].pending == waiting(
            state,
            topic,
        ).push(event),
        waiting(state, topic).len() == 0 && !(state.has(topic) && state.subs[topic].busy) ==> {
            let pushed = state.subscribe(topic, handler).push(topic, event);
            &&& pushed.next_delivery(topic) == Some(DeliveryView { handler, event })
            &&& pushed.begin(topic).next_delivery(topic) is None
            &&& pushed.begin(topic).complete(topic).next_delivery(topic) is None
        },
{
    let subscribed = state.subscribe(topic, handler);
    let pushed = subscribed.push(topic, event);
    if state.subs.dom().contains(topic) {
        assert(state.subs[topic].attached);
    }
    assert(subscribed.subs[topic].attached);
    assert(subscribed.wf()) by {
        assert forall|other: TopicView| subscribed.subs.dom().contains(other) implies (
        #[trigger] subscribed.subs[other]).attached by {
            if other != topic {
                assert(state.subs[other].attached);
            }
        }
    }
    if waiting(state, topic).len() == 0 {
        assert(pushed.subs[topic].pending =~= seq![event]);
        if !(state.has(topic) && state.subs[topic].busy) {
            assert(pushed.begin(topic).subs[topic].pending =~= Seq::<PushEventView>::empty());
        }
    }
}

/// Unsubscribing does not stop the deliveries: the state is what it was,
/// and a snapshot pushed afterwards is queued for the handler that was
/// registered, to be delivered in its turn; at once where nothing else
/// waits and no call is in progress.
pub proof fn lemma_unsubscribe_keeps_delivering(
    state: RegistryView,
    topic: TopicView,
    event: PushEventView,
)
    requires
        state.wf(),
        state.has(topic),
        state.subs[topic].handler is Some,
    ensures
        after_step(state, topic, TopicStep::Unsubscribe) == state,
        after_step(state, topic, TopicStep::Unsubscribe).push_outcome(topic) == PushOutcome::Queued,
        after_step(state, topic, TopicStep::Unsubscribe).push(topic, event).subs[topic]
            == state.subs[topic].push(event),
        after_step(state, topic, TopicStep::Unsubscribe).push(topic, event).subs[topic].pending
            == state.subs[topic].pending.push(event),
        state.subs[topic].pending.len() == 0 && !state.subs[topic].busy ==> after_step(
            state,
            topic,
            TopicStep::Unsubscribe,
        ).push(topic, event).next_delivery(topic) == Some(
            DeliveryView { handler: state.subs[topic].handler->Some_0, event },
        ),
{
    assert(state.subs[topic].attached);
    assert(state.subs[topic].pending.len() == 0 ==> state.subs[topic].pending.push(event)[0]
        == event);
}

/// Every step keeps a registry well-formed.
pub proof fn lemma_steps_keep_wf(state: RegistryView, steps: Seq<Happening>)
    requires
        state.wf(),
    ensures
        after_steps(state, steps).wf(),
    decreases steps.len(),
{
    if steps.len() > 0 {
        let topic = steps[0].topic;
        let next = after_step(state, topic, steps[0].step);
        assert(next.wf()) by {
            assert forall|other: TopicView| next.subs.dom().contains(other) implies (
            #[trigger] next.subs[other]).attached by {
                if state.subs.dom().contains(other) {
                    assert(state.subs[other].attached);
                }
            }
        }
        lemma_steps_keep_wf(next, steps.drop_first());
    }
}

/// Shutting down is final: whatever is tried afterwards, on whatever
/// topic, the state stays as the shutdown left it, a subscription is
/// refused, a pushed snapshot is dropped, and no call begins.
pub proof fn lemma_shutdown_is_final(state: RegistryView, steps: Seq<Happening>, topic: TopicView)
    ensures
        after_steps(state.shutdown(), steps) == state.shutdown(),
        after_steps(state.shutdown(), steps).next_delivery(topic) is None,
        after_steps(state.shutdown(), steps).subscribe_result(topic) is Err,
        after_steps(state.shutdown(), steps).subscribe_result(topic)->Err_0
            == NacosErrorView::Closed,
        after_steps(state.shutdown(), steps).push_outcome(topic) == PushOutcome::Closed,
    decreases steps.len(),
{
    if steps.len() > 0 {
        let closed = state.shutdown();
        assert(after_step(closed, steps[0].topic, steps[0].step) == closed);
        assert(closed.shutdown() == closed);
        lemma_shutdown_is_final(closed, steps.drop_first(), topic);
    }
}

/// The call that was in progress when the handle was shut down may end
/// afterwards, and ending it changes nothing.
pub proof fn lemma_completion_after_shutdown(state: RegistryView, topic: TopicView)
    ensures
        state.shutdown().complete(topic) == state.shutdown(),
{
}

} // verus!
