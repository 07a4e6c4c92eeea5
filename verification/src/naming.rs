//! The naming client: what each of its calls asks of the remote side, what
//! a reply means to the host, and the listeners of membership changes.
use crate::dispatcher::{Handler, PushOutcome};
use crate::error::{remote_error, NacosError, NacosErrorView};
use crate::event::{
    check_service_key, clone_names, names_of, service_key_error, PushEvent, PushEventView, Topic,
    TopicView,
};
use crate::instance::{
    host_views, presented, remote_views, resolved, transfer_ffi_instance_to_rust,
    transfer_ffi_instances_to_rust, transfer_rust_instance_to_ffi, transfer_rust_instances_to_ffi,
    NacosServiceInstance, NacosServiceInstanceView, ServiceInstance, ServiceInstanceView,
};
use crate::options::ClientOptions;
use crate::registry::{RegistryView, Subscribed, SubscriptionRegistry};
use crate::sdk::{
    naming_builder, naming_builder_http_auth, naming_builder_props, naming_builder_with_http_auth,
};
use nacos_sdk::api::error::Error;
use nacos_sdk::api::naming::NamingServiceBuilder;
use vstd::prelude::*;

verus! {

/// A request that the naming client asks its caller to perform on the
/// remote side.
#[derive(Clone, Debug, PartialEq, Eq)]
pub enum NamingRequest {
    /// Register one instance of a service.
    Register { service_name: String, group: String, instance: ServiceInstance },
    /// Take one instance of a service off the registry.
    Deregister { service_name: String, group: String, instance: ServiceInstance },
    /// Register several instances of a service at once.
    BatchRegister { service_name: String, group: String, instances: Vec<ServiceInstance> },
    /// Fetch all instances of a service.
    GetAllInstances { service_name: String, group: String, clusters: Vec<String>, subscribe: bool },
    /// Fetch the instances of a service that are healthy, or those that
    /// are not.
    SelectInstances {
        service_name: String,
        group: String,
        clusters: Vec<String>,
        subscribe: bool,
        healthy: bool,
    },
    /// Fetch one healthy instance of a service.
    SelectOneHealthyInstance {
        service_name: String,
        group: String,
        clusters: Vec<String>,
        subscribe: bool,
    },
}

/// The mathematical value of a [`NamingRequest`].
pub enum NamingRequestView {
    Register { service_name: Seq<char>, group: Seq<char>, instance: ServiceInstanceView },
    Deregister { service_name: Seq<char>, group: Seq<char>, instance: ServiceInstanceView },
    BatchRegister { service_name: Seq<char>, group: Seq<char>, instances: Seq<ServiceInstanceView> },
    GetAllInstances {
        service_name: Seq<char>,
        group: Seq<char>,
        clusters: Seq<Seq<char>>,
        subscribe: bool,
    },
    SelectInstances {
        service_name: Seq<char>,
        group: Seq<char>,
        clusters: Seq<Seq<char>>,
        subscribe: bool,
        healthy: bool,
    },
    SelectOneHealthyInstance {
        service_name: Seq<char>,
        group: Seq<char>,
        clusters: Seq<Seq<char>>,
        subscribe: bool,
    },
}

/// The names of a list, in order.
pub open spec fn names_in_order(list: Seq<String>) -> Seq<Seq<char>> {
    Seq::new(list.len(), |i: int| list[i]@)
}

impl View for NamingRequest {
    type V = NamingRequestView;

    open spec fn view(&self) -> NamingRequestView {
        match self {
            NamingRequest::Register { service_name, group, instance } => NamingRequestView::Register {
                service_name: service_name@,
                group: group@,
                instance: instance@,
            },
            NamingRequest::Deregister {
                service_name,
                group,
                instance,
            } => NamingRequestView::Deregister {
                service_name: service_name@,
                group: group@,
                instance: instance@,
            },
            NamingRequest::BatchRegister {
                service_name,
                group,
                instances,
            } => NamingRequestView::BatchRegister {
                service_name: service_name@,
                group: group@,
                instances: remote_views(instances@),
            },
            NamingRequest::GetAllInstances {
                service_name,
                group,
                clusters,
                subscribe,
            } => NamingRequestView::GetAllInstances {
                service_name: service_name@,
                group: group@,
                clusters: names_in_order(clusters@),
                subscribe: *subscribe,
            },
            NamingRequest::SelectInstances {
                service_name,
                group,
                clusters,
                subscribe,
                healthy,
            } => NamingRequestView::SelectInstances {
                service_name: service_name@,
                group: group@,
                clusters: names_in_order(clusters@),
                subscribe: *subscribe,
                healthy: *healthy,
            },
            NamingRequest::SelectOneHealthyInstance {
                service_name,
                group,
                clusters,
                subscribe,
            } => NamingRequestView::SelectOneHealthyInstance {
                service_name: service_name@,
                group: group@,
                clusters: names_in_order(clusters@),
                subscribe: *subscribe,
            },
        }
    }
}

/// The value of a request that may have been refused.
pub open spec fn request_view(result: Result<NamingRequest, NacosError>) -> Result<
    NamingRequestView,
    NacosErrorView,
> {
    match result {
        Ok(request) => Ok(request@),
        Err(err) => Err(err@),
    }
}

/// A request on the service with the given key, unless the key is
/// refused.
pub open spec fn checked(
    service_name: Seq<char>,
    group: Seq<char>,
    request: NamingRequestView,
) -> Result<NamingRequestView, NacosErrorView> {
    match service_key_error(service_name, group) {
        Some(err) => Err(err),
        None => Ok(request),
    }
}

/// The clusters that a query names: those given, or none, which means all.
pub open spec fn clusters_or_all(clusters: Option<Vec<String>>) -> Seq<String> {
    match clusters {
        Some(list) => list@,
        None => Seq::empty(),
    }
}

/// A flag, or `true` where it is absent.
pub open spec fn on_unless_off(flag: Option<bool>) -> bool {
    match flag {
        Some(value) => value,
        None => true,
    }
}

/// The listener of one service's membership: what the remote side calls
/// when the members change.
#[derive(Debug)]
pub struct NacosNamingEventListener {
    topic: Topic,
}

impl NacosNamingEventListener {
    /// The topic that the listener is bound to.
    pub closed spec fn bound(&self) -> TopicView {
        self.topic@
    }

    /// The topic that the listener is bound to.
    pub fn topic(&self) -> (topic: &Topic)
        ensures
            topic@ == self.bound(),
    {
        &self.topic
    }

    /// Takes a membership change from the remote side and queues the list
    /// of members, as the host reads them, for the handler of the listener's
    /// topic. A change that carries no list is passed over. The handler is not
    /// called from here.
    pub fn event(
        &self,
        subscriptions: &mut SubscriptionRegistry,
        instances: Option<Vec<ServiceInstance>>,
    ) -> (outcome: Option<PushOutcome>)
        requires
            old(subscriptions).wf(),
        ensures
            final(subscriptions).wf(),
            match instances {
                None => outcome is None && final(subscriptions)@ == old(subscriptions)@,
                Some(list) => {
                    &&& outcome == Some(old(subscriptions)@.push_outcome(self.bound()))
                    &&& final(subscriptions)@ == old(subscriptions)@.push(
                        self.bound(),
                        PushEventView::MembershipSnapshot(
                            remote_views(list@).map_values(
                                |remote: ServiceInstanceView| presented(remote),
                            ),
                        ),
                    )
                },
            },
    {
        match instances {
            None => None,
            Some(list) => {
                let members = transfer_rust_instances_to_ffi(&list);
                Some(subscriptions.on_push(&self.topic, PushEvent::MembershipSnapshot(members)))
            },
        }
    }
}

/// The naming client of one handle.
#[derive(Debug)]
pub struct NacosNamingClient {
    /// The options that the client was made with.
    pub options: ClientOptions,
    /// The subscriptions of the handle.
    pub subscriptions: SubscriptionRegistry,
}

/// What a query leaves of the subscriptions: with the flag on, the topic
/// of the query is watched from now on; with the flag off, nothing changes.
pub open spec fn after_query(state: RegistryView, topic: TopicView, subscribe: bool) -> RegistryView {
    if subscribe {
        state.watch(topic)
    } else {
        state
    }
}

/// Whether a query makes a subscription that is still to be set up on the
/// remote side.
pub open spec fn query_creates(state: RegistryView, topic: TopicView, subscribe: bool) -> bool {
    subscribe && state.watch_creates(topic)
}

impl NacosNamingClient {
    /// A client for the given options, with no subscription.
    pub fn new(client_options: ClientOptions) -> (client: NacosNamingClient)
        ensures
            client.options == client_options,
            client.subscriptions.wf(),
            client.subscriptions@ == RegistryView::empty(),
    {
        NacosNamingClient { options: client_options, subscriptions: SubscriptionRegistry::new() }
    }

    /// The builder of the remote naming service for this client's options.
    /// It logs in over HTTP exactly when the options carry both a user name
    /// and a password.
    pub fn service_builder(&self) -> (builder: NamingServiceBuilder)
        ensures
            self.options.matches_naming_props(naming_builder_props(builder)),
            naming_builder_http_auth(builder) == self.options.auth_enabled(),
    {
        let builder = naming_builder(self.options.naming_props());
        if self.options.is_auth_enabled() {
            naming_builder_with_http_auth(builder)
        } else {
            builder
        }
    }

    /// The request that registers an instance, with every absent field of
    /// the instance resolved to its default.
    pub fn register_instance(
        &self,
        service_name: String,
        group: String,
        service_instance: NacosServiceInstance,
    ) -> (result: Result<NamingRequest, NacosError>)
        ensures
            request_view(result) == checked(
                service_name@,
                group@,
                NamingRequestView::Register {
                    service_name: service_name@,
                    group: group@,
                    instance: resolved(service_instance@),
                },
            ),
    {
        match check_service_key(&service_name, &group) {
            Some(err) => Err(err),
            None => Ok(
                NamingRequest::Register {
                    service_name,
                    group,
                    instance: transfer_ffi_instance_to_rust(&service_instance),
                },
            ),
        }
    }

    /// The request that takes an instance off the registry.
    pub fn deregister_instance(
        &self,
        service_name: String,
        group: String,
        service_instance: NacosServiceInstance,
    ) -> (result: Result<NamingRequest, NacosError>)
        ensures
            request_view(result) == checked(
                service_name@,
                group@,
                NamingRequestView::Deregister {
                    service_name: service_name@,
                    group: group@,
                    instance: resolved(service_instance@),
                },
            ),
    {
        match check_service_key(&service_name, &group) {
            Some(err) => Err(err),
            None => Ok(
                NamingRequest::Deregister {
                    service_name,
                    group,
                    instance: transfer_ffi_instance_to_rust(&service_instance),
                },
            ),
        }
    }

    /// The request that registers several instances at once, each resolved
    /// like a single one, in the order given.
    pub fn batch_register_instance(
        &self,
        service_name: String,
        group: String,
        service_instances: Vec<NacosServiceInstance>,
    ) -> (result: Result<NamingRequest, NacosError>)
        ensures
            request_view(result) == checked(
                service_name@,
                group@,
                NamingRequestView::BatchRegister {
                    service_name: service_name@,
                    group: group@,
                    instances: host_views(service_instances@).map_values(
                        |host: NacosServiceInstanceView| resolved(host),
                    ),
                },
            ),
    {
        match check_service_key(&service_name, &group) {
            Some(err) => Err(err),
            None => Ok(
                NamingRequest::BatchRegister {
                    service_name,
                    group,
                    instances: transfer_ffi_instances_to_rust(&service_instances),
                },
            ),
        }
    }

    fn watch_for_query(
        &mut self,
        service_name: &String,
        group: &String,
        clusters: &Vec<String>,
        subscribe: bool,
    ) -> (listener: Option<NacosNamingEventListener>)
        requires
            old(self).subscriptions.wf(),
        ensures
            final(self).subscriptions.wf(),
            final(self).options == old(self).options,
            final(self).subscriptions@ == after_query(
                old(self).subscriptions@,
                TopicView::Naming {
                    service_name: service_name@,
                    group: group@,
                    clusters: names_of(clusters@),
                },
                subscribe,
            ),
            match listener {
                Some(listener) => {
                    &&& query_creates(
                        old(self).subscriptions@,
                        TopicView::Naming {
                            service_name: service_name@,
                            group: group@,
                            clusters: names_of(clusters@),
                        },
                        subscribe,
                    )
                    &&& listener.bound() == (TopicView::Naming {
                        service_name: service_name@,
                        group: group@,
                        clusters: names_of(clusters@),
                    })
                },
                None => !query_creates(
                    old(self).subscriptions@,
                    TopicView::Naming {
                        service_name: service_name@,
                        group: group@,
                        clusters: names_of(clusters@),
                    },
                    subscribe,
                ),
            },
    {
        if !subscribe {
            return None;
        }
        let topic = Topic::Naming {
            service_name: service_name.clone(),
            group: group.clone(),
            clusters: clone_names(clusters),
        };
        let bound = topic.duplicate();
        if self.subscriptions.watch(topic) {
            Some(NacosNamingEventListener { topic: bound })
        } else {
            None
        }
    }

    /// The request that fetches all instances of a service. No cluster
    /// named means all clusters, and the flag is on unless switched off.
    ///
    /// With the flag on, the service is watched from now on. Where that
    /// takes a new subscription, its listener is handed out with the request
    /// and is still to be given to the remote side. The request itself is the
    /// same whether or not a subscription is made, also on a handle that has
    /// been shut down.
    pub fn get_all_instances(
        &mut self,
        service_name: String,
        group: String,
        clusters: Option<Vec<String>>,
        subscribe: Option<bool>,
    ) -> (result: Result<(NamingRequest, Option<NacosNamingEventListener>), NacosError>)
        requires
            old(self).subscriptions.wf(),
        ensures
            final(self).subscriptions.wf(),
            final(self).options == old(self).options,
            match service_key_error(service_name@, group@) {
                Some(err) => {
                    &&& result is Err
                    &&& result->Err_0@ == err
                    &&& final(self).subscriptions@ == old(self).subscriptions@
                },
                None => {
                    let topic = TopicView::Naming {
                        service_name: service_name@,
                        group: group@,
                        clusters: names_of(clusters_or_all(clusters)),
                    };
                    let flag = on_unless_off(subscribe);
                    &&& result is Ok
                    &&& result->Ok_0.0@ == (NamingRequestView::GetAllInstances {
                        service_name: service_name@,
                        group: group@,
                        clusters: names_in_order(clusters_or_all(clusters)),
                        subscribe: flag,
                    })
                    &&& final(self).subscriptions@ == after_query(
                        old(self).subscriptions@,
                        topic,
                        flag,
                    )
                    &&& result->Ok_0.1 is Some == query_creates(
                        old(self).subscriptions@,
                        topic,
                        flag,
                    )
                    &&& result->Ok_0.1 is Some ==> result->Ok_0.1->Some_0.bound() == topic
                },
            },
    {
        match check_service_key(&service_name, &group) {
            Some(err) => {
                return Err(err);
            },
            None => {},
        }
        let clusters = match clusters {
            Some(list) => list,
            None => Vec::new(),
        };
        let subscribe = match subscribe {
            Some(flag) => flag,
            None => true,
        };
        let listener = self.watch_for_query(&service_name, &group, &clusters, subscribe);
        Ok((NamingRequest::GetAllInstances { service_name, group, clusters, subscribe }, listener))
    }

    /// The request that fetches the healthy instances of a service, or,
    /// with the last flag off, the unhealthy ones. No cluster named means all
    /// clusters, and both flags are on unless switched off.
    ///
    /// With the subscribe flag on, the service is watched from now on, as
    /// in [`Self::get_all_instances`].
    pub fn select_instances(
        &mut self,
        service_name: String,
        group: String,
        clusters: Option<Vec<String>>,
        subscribe: Option<bool>,
        healthy: Option<bool>,
    ) -> (result: Result<(NamingRequest, Option<NacosNamingEventListener>), NacosError>)
        requires
            old(self).subscriptions.wf(),
        ensures
            final(self).subscriptions.wf(),
            final(self).options == old(self).options,
            match service_key_error(service_name@, group@) {
                Some(err) => {
                    &&& result is Err
                    &&& result->Err_0@ == err
                    &&& final(self).subscriptions@ == old(self).subscriptions@
                },
                None => {
                    let topic = TopicView::Naming {
                        service_name: service_name@,
                        group: group@,
                        clusters: names_of(clusters_or_all(clusters)),
                    };
                    let flag = on_unless_off(subscribe);
                    &&& result is Ok
                    &&& result->Ok_0.0@ == (NamingRequestView::SelectInstances {
                        service_name: service_name@,
                        group: group@,
                        clusters: names_in_order(clusters_or_all(clusters)),
                        subscribe: flag,
                        healthy: on_unless_off(healthy),
                    })
                    &&& final(self).subscriptions@ == after_query(
                        old(self).subscriptions@,
                        topic,
                        flag,
                    )
                    &&& result->Ok_0.1 is Some == query_creates(
                        old(self).subscriptions@,
                        topic,
                        flag,
                    )
                    &&& result->Ok_0.1 is Some ==> result->Ok_0.1->Some_0.bound() == topic
                },
            },
    {
        match check_service_key(&service_name, &group) {
            Some(err) => {
                return Err(err);
            },
            None => {},
        }
        let clusters = match clusters {
            Some(list) => list,
            None => Vec::new(),
        };
        let subscribe = match subscribe {
            Some(flag) => flag,
            None => true,
        };
        let healthy = match healthy {
            Some(flag) => flag,
            None => true,
        };
        let listener = self.watch_for_query(&service_name, &group, &clusters, subscribe);
        Ok(
            (
                NamingRequest::SelectInstances { service_name, group, clusters, subscribe, healthy },
                listener,
            ),
        )
    }

    /// The request that fetches one healthy instance of a service. No
    /// cluster named means all clusters, and the flag is on unless switched
    /// off.
    ///
    /// With the flag on, the service is watched from now on, as in
    /// [`Self::get_all_instances`].
    pub fn select_one_healthy_instance(
        &mut self,
        service_name: String,
        group: String,
        clusters: Option<Vec<String>>,
        subscribe: Option<bool>,
    ) -> (result: Result<(NamingRequest, Option<NacosNamingEventListener>), NacosError>)
        requires
            old(self).subscriptions.wf(),
        ensures
            final(self).subscriptions.wf(),
            final(self).options == old(self).options,
            match service_key_error(service_name@, group@) {
                Some(err) => {
                    &&& result is Err
                    &&& result->Err_0@ == err
                    &&& final(self).subscriptions@ == old(self).subscriptions@
                },
                None => {
                    let topic = TopicView::Naming {
                        service_name: service_name@,
                        group: group@,
                        clusters: names_of(clusters_or_all(clusters)),
                    };
                    let flag = on_unless_off(subscribe);
                    &&& result is Ok
                    &&& result->Ok_0.0@ == (NamingRequestView::SelectOneHealthyInstance {
                        service_name: service_name@,
                        group: group@,
                        clusters: names_in_order(clusters_or_all(clusters)),
                        subscribe: flag,
                    })
                    &&& final(self).subscriptions@ == after_query(
                        old(self).subscriptions@,
                        topic,
                        flag,
                    )
                    &&& result->Ok_0.1 is Some == query_creates(
                        old(self).subscriptions@,
                        topic,
                        flag,
                    )
                    &&& result->Ok_0.1 is Some ==> result->Ok_0.1->Some_0.bound() == topic
                },
            },
    {
        match check_service_key(&service_name, &group) {
            Some(err) => {
                return Err(err);
            },
            None => {},
        }
        let clusters = match clusters {
            Some(list) => list,
            None => Vec::new(),
        };
        let subscribe = match subscribe {
            Some(flag) => flag,
            None => true,
        };
        let listener = self.watch_for_query(&service_name, &group, &clusters, subscribe);
        Ok(
            (
                NamingRequest::SelectOneHealthyInstance { service_name, group, clusters, subscribe },
                listener,
            ),
        )
    }

    /// What the host gets for the reply to a query for instances: each
    /// instance as the host reads it, in the order of the reply.
    pub fn instances_reply(reply: Result<Vec<ServiceInstance>, Error>) -> (result: Result<
        Vec<NacosServiceInstance>,
        NacosError,
    >)
        ensures
            match reply {
                Ok(list) => result is Ok && host_views(result->Ok_0@) == remote_views(
                    list@,
                ).map_values(|remote: ServiceInstanceView| presented(remote)),
                Err(err) => result is Err && result->Err_0@ == remote_error(err),
            },
    {
        match reply {
            Ok(list) => Ok(transfer_rust_instances_to_ffi(&list)),
            Err(err) => Err(NacosError::from_remote(&err)),
        }
    }

    /// What the host gets for the reply to a query for one instance.
    pub fn instance_reply(reply: Result<ServiceInstance, Error>) -> (result: Result<
        NacosServiceInstance,
        NacosError,
    >)
        ensures
            match reply {
                Ok(instance) => result is Ok && result->Ok_0@ == presented(instance@),
                Err(err) => result is Err && result->Err_0@ == remote_error(err),
            },
    {
        match reply {
            Ok(instance) => Ok(transfer_rust_instance_to_ffi(&instance)),
            Err(err) => Err(NacosError::from_remote(&err)),
        }
    }

    /// Subscribes a handler to the membership of a service. With a refused
    /// key, or on a handle that has been shut down, nothing changes. Else
    /// the handler is registered, and the listener for the service is handed
    /// back: after `Created` it is still to be given to the remote side.
    pub fn subscribe(
        &mut self,
        service_name: String,
        group: String,
        clusters: Option<Vec<String>>,
        listener: Handler,
    ) -> (result: Result<(Subscribed, NacosNamingEventListener), NacosError>)
        requires
            old(self).subscriptions.wf(),
        ensures
            final(self).subscriptions.wf(),
            final(self).options == old(self).options,
            match service_key_error(service_name@, group@) {
                Some(err) => {
                    &&& result is Err
                    &&& result->Err_0@ == err
                    &&& final(self).subscriptions@ == old(self).subscriptions@
                },
                None => {
                    let topic = TopicView::Naming {
                        service_name: service_name@,
                        group: group@,
                        clusters: names_of(clusters_or_all(clusters)),
                    };
                    &&& final(self).subscriptions@ == old(self).subscriptions@.subscribe(
                        topic,
                        listener,
                    )
                    &&& match old(self).subscriptions@.subscribe_result(topic) {
                        Ok(subscribed) => {
                            &&& result is Ok
                            &&& result->Ok_0.0 == subscribed
                            &&& result->Ok_0.1.bound() == topic
                        },
                        Err(err) => result is Err && result->Err_0@ == err,
                    }
                },
            },
    {
        let clusters = match clusters {
            Some(list) => list,
            None => Vec::new(),
        };
        let topic = match Topic::naming(service_name, group, clusters) {
            Ok(topic) => topic,
            Err(err) => {
                return Err(err);
            },
        };
        let bound = topic.duplicate();
        match self.subscriptions.subscribe(topic, listener) {
            Ok(subscribed) => Ok((subscribed, NacosNamingEventListener { topic: bound })),
            Err(err) => Err(err),
        }
    }

    /// Reports success and does nothing else. The service stays
    /// subscribed and its handler keeps being called.
    pub fn un_subscribe(
        &self,
        service_name: String,
        group: String,
        clusters: Option<Vec<String>>,
        listener: Handler,
    ) -> (result: Result<(), NacosError>)
        ensures
            result is Ok,
    {
        Ok(())
    }
}

} // verus!
