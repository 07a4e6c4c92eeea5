//! The configuration client: what each of its calls asks of the remote
//! side, what a reply means to the host, and the listeners of configuration
//! changes.
use crate::dispatcher::{Handler, PushOutcome};
use crate::error::{remote_error, NacosError, NacosErrorView};
use crate::event::{
    check_config_key, config_key_error, response_held, transfer_conf_resp, NacosConfigResponse,
    PushEvent, PushEventView, Topic, TopicView,
};
use crate::options::ClientOptions;
use crate::registry::{RegistryView, Subscribed, SubscriptionRegistry};
use crate::sdk::{
    config_builder, config_builder_http_auth, config_builder_props, config_builder_with_http_auth,
    response_content,
};
use nacos_sdk::api::config::{ConfigResponse, ConfigServiceBuilder};
use nacos_sdk::api::error::Error;
use vstd::prelude::*;

verus! {

/// A request that the configuration client asks its caller to perform on
/// the remote side.
#[derive(Clone, Debug, PartialEq, Eq)]
pub enum ConfigRequest {
    /// Fetch an entry.
    Get { data_id: String, group: String },
    /// Store an entry.
    Publish { data_id: String, group: String, content: String },
    /// Delete an entry.
    Remove { data_id: String, group: String },
}

/// The mathematical value of a [`ConfigRequest`].
pub enum ConfigRequestView {
    Get { data_id: Seq<char>, group: Seq<char> },
    Publish { data_id: Seq<char>, group: Seq<char>, content: Seq<char> },
    Remove { data_id: Seq<char>, group: Seq<char> },
}

impl View for ConfigRequest {
    type V = ConfigRequestView;

    open spec fn view(&self) -> ConfigRequestView {
        match self {
            ConfigRequest::Get { data_id, group } => ConfigRequestView::Get {
                data_id: data_id@,
                group: group@,
            },
            ConfigRequest::Publish { data_id, group, content } => ConfigRequestView::Publish {
                data_id: data_id@,
                group: group@,
                content: content@,
            },
            ConfigRequest::Remove { data_id, group } => ConfigRequestView::Remove {
                data_id: data_id@,
                group: group@,
            },
        }
    }
}

/// The value of a request that may have been refused.
pub open spec fn request_view(result: Result<ConfigRequest, NacosError>) -> Result<
    ConfigRequestView,
    NacosErrorView,
> {
    match result {
        Ok(request) => Ok(request@),
        Err(err) => Err(err@),
    }
}

/// A request on the entry with the given key, unless the key is refused.
pub open spec fn checked(data_id: Seq<char>, group: Seq<char>, request: ConfigRequestView) -> Result<
    ConfigRequestView,
    NacosErrorView,
> {
    match config_key_error(data_id, group) {
        Some(err) => Err(err),
        None => Ok(request),
    }
}

/// The entries of a configuration store that answers at once: the content
/// under each key of data id and group.
pub type Store = Map<(Seq<char>, Seq<char>), Seq<char>>;

/// What such a store holds after a request.
pub open spec fn store_after(store: Store, request: ConfigRequestView) -> Store {
    match request {
        ConfigRequestView::Get { .. } => store,
        ConfigRequestView::Publish { data_id, group, content } => store.insert(
            (data_id, group),
            content,
        ),
        ConfigRequestView::Remove { data_id, group } => store.remove((data_id, group)),
    }
}

/// The content that such a store answers a fetch with, if it has the
/// entry.
pub open spec fn store_answer(store: Store, request: ConfigRequestView) -> Option<Seq<char>> {
    match request {
        ConfigRequestView::Get { data_id, group } => if store.dom().contains((data_id, group)) {
            Some(store[(data_id, group)])
        } else {
            None
        },
        _ => None,
    }
}

/// The listener of one configuration entry: what the remote side calls
/// when the entry changes.
#[derive(Debug)]
pub struct NacosConfigChangeListener {
    topic: Topic,
}

impl NacosConfigChangeListener {
    /// The topic that the listener is bound to.
    pub closed spec fn bound(&self) -> TopicView {
        self.topic@
    }

    /// The topic that the listener is bound to.
    pub fn topic(&self) -> (topic: &Topic)
        ensures
            topic@ == self.bound(),
    {
        &self.topic
    }

    /// The snapshot that a response of the remote side stands for.
    pub fn snapshot(config_resp: ConfigResponse) -> (event: PushEvent)
        ensures
            event@ == PushEventView::ConfigSnapshot(response_held(config_resp)),
    {
        PushEvent::ConfigSnapshot(transfer_conf_resp(config_resp))
    }

    /// Takes a changed entry from the remote side and queues its snapshot
    /// for the handler of the listener's topic. The handler is not called
    /// from here, so the remote side's thread is free again at once.
    pub fn notify(
        &self,
        subscriptions: &mut SubscriptionRegistry,
        config_resp: ConfigResponse,
    ) -> (outcome: PushOutcome)
        requires
            old(subscriptions).wf(),
        ensures
            final(subscriptions).wf(),
            outcome == old(subscriptions)@.push_outcome(self.bound()),
            final(subscriptions)@ == old(subscriptions)@.push(
                self.bound(),
                PushEventView::ConfigSnapshot(response_held(config_resp)),
            ),
    {
        let event = Self::snapshot(config_resp);
        subscriptions.on_push(&self.topic, event)
    }
}

/// The configuration client of one handle.
#[derive(Debug)]
pub struct NacosConfigClient {
    /// The options that the client was made with.
    pub options: ClientOptions,
    /// The subscriptions of the handle.
    pub subscriptions: SubscriptionRegistry,
}

impl NacosConfigClient {
    /// A client for the given options, with no subscription.
    pub fn new(client_options: ClientOptions) -> (client: NacosConfigClient)
        ensures
            client.options == client_options,
            client.subscriptions.wf(),
            client.subscriptions@ == RegistryView::empty(),
    {
        NacosConfigClient { options: client_options, subscriptions: SubscriptionRegistry::new() }
    }

    /// The builder of the remote configuration service for this client's
    /// options. It logs in over HTTP exactly when the options carry both a
    /// user name and a password.
    pub fn service_builder(&self) -> (builder: ConfigServiceBuilder)
        ensures
            self.options.matches_props(config_builder_props(builder)),
            config_builder_http_auth(builder) == self.options.auth_enabled(),
    {
        let builder = config_builder(self.options.client_props());
        if self.options.is_auth_enabled() {
            config_builder_with_http_auth(builder)
        } else {
            builder
        }
    }

    /// The request that fetches the content of an entry.
    pub fn get_config(&self, data_id: String, group: String) -> (result: Result<
        ConfigRequest,
        NacosError,
    >)
        ensures
            request_view(result) == checked(
                data_id@,
                group@,
                ConfigRequestView::Get { data_id: data_id@, group: group@ },
            ),
    {
        self.get_config_resp(data_id, group)
    }

    /// The request that fetches an entry with all that is known of it.
    pub fn get_config_resp(&self, data_id: String, group: String) -> (result: Result<
        ConfigRequest,
        NacosError,
    >)
        ensures
            request_view(result) == checked(
                data_id@,
                group@,
                ConfigRequestView::Get { data_id: data_id@, group: group@ },
            ),
    {
        match check_config_key(&data_id, &group) {
            Some(err) => Err(err),
            None => Ok(ConfigRequest::Get { data_id, group }),
        }
    }

    /// The request that stores an entry.
    pub fn publish_config(&self, data_id: String, group: String, content: String) -> (result:
        Result<ConfigRequest, NacosError>)
        ensures
            request_view(result) == checked(
                data_id@,
                group@,
                ConfigRequestView::Publish { data_id: data_id@, group: group@, content: content@ },
            ),
    {
        match check_config_key(&data_id, &group) {
            Some(err) => Err(err),
            None => Ok(ConfigRequest::Publish { data_id, group, content }),
        }
    }

    /// The request that deletes an entry.
    pub fn remove_config(&self, data_id: String, group: String) -> (result: Result<
        ConfigRequest,
        NacosError,
    >)
        ensures
            request_view(result) == checked(
                data_id@,
                group@,
                ConfigRequestView::Remove { data_id: data_id@, group: group@ },
            ),
    {
        match check_config_key(&data_id, &group) {
            Some(err) => Err(err),
            None => Ok(ConfigRequest::Remove { data_id, group }),
        }
    }

    /// What the host gets for the reply to a fetch of an entry's content.
    pub fn config_content(reply: Result<ConfigResponse, Error>) -> (result: Result<
        String,
        NacosError,
    >)
        ensures
            match reply {
                Ok(resp) => result is Ok && result->Ok_0@ == response_content(resp),
                Err(err) => result is Err && result->Err_0@ == remote_error(err),
            },
    {
        match reply {
            Ok(resp) => Ok(transfer_conf_resp(resp).content),
            Err(err) => Err(NacosError::from_remote(&err)),
        }
    }

    /// What the host gets for the reply to a fetch of an entry.
    pub fn config_response(reply: Result<ConfigResponse, Error>) -> (result: Result<
        NacosConfigResponse,
        NacosError,
    >)
        ensures
            match reply {
                Ok(resp) => result is Ok && result->Ok_0@ == response_held(resp),
                Err(err) => result is Err && result->Err_0@ == remote_error(err),
            },
    {
        match reply {
            Ok(resp) => Ok(transfer_conf_resp(resp)),
            Err(err) => Err(NacosError::from_remote(&err)),
        }
    }

    /// Subscribes a handler to the changes of an entry. With a refused
    /// key, or on a handle that has been shut down, nothing changes. Else
    /// the handler is registered, and the listener for the entry is handed
    /// back: after `Created` it is still to be given to the remote side.
    pub fn add_listener(&mut self, data_id: String, group: String, listener: Handler) -> (result:
        Result<(Subscribed, NacosConfigChangeListener), NacosError>)
        requires
            old(self).subscriptions.wf(),
        ensures
            final(self).subscriptions.wf(),
            final(self).options == old(self).options,
            match config_key_error(data_id@, group@) {
                Some(err) => {
                    &&& result is Err
                    &&& result->Err_0@ == err
                    &&& final(self).subscriptions@ == old(self).subscriptions@
                },
                None => {
                    let topic = TopicView::Config { data_id: data_id@, group: group@ };
                    &&& final(self).subscriptions@ == old(self).subscriptions@.subscribe(
                        topic,
                        listener,
                    )
                    &&& match old(self).subscriptions@.subscribe_result(topic) {
                        Ok(subscribed) => {
                            &&& result is Ok
                            &&& result->Ok_0.0 == subscribed
                            &&& result->Ok_0.1.bound() == topic
                        },
                        Err(err) => result is Err && result->Err_0@ == err,
                    }
                },
            },
    {
        let topic = match Topic::config(data_id, group) {
            Ok(topic) => topic,
            Err(err) => {
                return Err(err);
            },
        };
        let bound = topic.duplicate();
        match self.subscriptions.subscribe(topic, listener) {
            Ok(subscribed) => Ok((subscribed, NacosConfigChangeListener { topic: bound })),
            Err(err) => Err(err),
        }
    }

    /// Reports success and does nothing else. The entry stays subscribed
    /// and its handler keeps being called.
    pub fn remove_listener(&self, data_id: String, group: String, listener: Handler) -> (result:
        Result<(), NacosError>)
        ensures
            result is Ok,
    {
        Ok(())
    }
}

/// What is stored is what is fetched: on a store that answers at once, the
/// request that [`NacosConfigClient::publish_config`] makes for a key and a
/// content, followed by the request that [`NacosConfigClient::get_config`]
/// makes for the same key, is answered with that content.
pub proof fn lemma_publish_then_get(
    store: Store,
    data_id: Seq<char>,
    group: Seq<char>,
    content: Seq<char>,
)
    requires
        data_id.len() > 0,
        group.len() > 0,
    ensures
        checked(data_id, group, ConfigRequestView::Publish { data_id, group, content }) is Ok,
        checked(data_id, group, ConfigRequestView::Get { data_id, group }) is Ok,
        store_answer(
            store_after(
                store,
                checked(data_id, group, ConfigRequestView::Publish { data_id, group, content })->Ok_0,
            ),
            checked(data_id, group, ConfigRequestView::Get { data_id, group })->Ok_0,
        ) == Some(content),
{
}

} // verus!
