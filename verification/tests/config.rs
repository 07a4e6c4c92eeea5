use nacos_binding::{
    ClientOptions, ConfigRequest, Delivery, Handler, NacosConfigChangeListener, NacosConfigClient,
    NacosConfigResponse, NacosError, PushEvent, PushOutcome, Subscribed, Topic,
};
use nacos_sdk::api::config::ConfigResponse;
use nacos_sdk::api::error::Error;
use std::collections::HashMap;

fn text(s: &str) -> String {
    s.to_string()
}

fn options(user: Option<&str>, pass: Option<&str>) -> ClientOptions {
    ClientOptions::new(
        text("127.0.0.1:8848"),
        text(""),
        None,
        user.map(text),
        pass.map(text),
        None,
        None,
        None,
        None,
        None,
    )
}

fn client() -> NacosConfigClient {
    NacosConfigClient::new(options(None, None))
}

fn response(content: &str) -> ConfigResponse {
    ConfigResponse::new(
        text("app.yaml"),
        text("DEFAULT_GROUP"),
        text("tenant-a"),
        text(content),
        text("yaml"),
        text("9a0364b9e99bb480dd25e1f0284c8555"),
    )
}

#[test]
fn new_client_has_no_subscription() {
    let c = NacosConfigClient::new(options(Some("u"), Some("p")));
    assert_eq!(c.options.username.as_deref(), Some("u"));
    assert!(!c.subscriptions.is_closed());
    let t = Topic::config(text("app.yaml"), text("DEFAULT_GROUP")).unwrap();
    assert!(!c.subscriptions.contains(&t));
}

#[test]
fn service_builder_can_be_made_with_and_without_login() {
    let _plain = client().service_builder();
    let _auth = NacosConfigClient::new(options(Some("u"), Some("p"))).service_builder();
}

#[test]
fn get_config_asks_for_the_entry() {
    let c = client();
    assert_eq!(
        c.get_config(text("app.yaml"), text("DEFAULT_GROUP")),
        Ok(ConfigRequest::Get { data_id: text("app.yaml"), group: text("DEFAULT_GROUP") })
    );
    assert_eq!(
        c.get_config_resp(text("app.yaml"), text("DEFAULT_GROUP")),
        Ok(ConfigRequest::Get { data_id: text("app.yaml"), group: text("DEFAULT_GROUP") })
    );
}

#[test]
fn publish_and_remove_ask_for_the_entry() {
    let c = client();
    assert_eq!(
        c.publish_config(text("app.yaml"), text("g"), text("a: 1")),
        Ok(ConfigRequest::Publish {
            data_id: text("app.yaml"),
            group: text("g"),
            content: text("a: 1")
        })
    );
    assert_eq!(
        c.remove_config(text("app.yaml"), text("g")),
        Ok(ConfigRequest::Remove { data_id: text("app.yaml"), group: text("g") })
    );
}

#[test]
fn empty_key_components_are_refused() {
    let c = client();
    let no_id = Err(NacosError::Validation(text("data_id")));
    let no_group = Err(NacosError::Validation(text("group")));
    assert_eq!(c.get_config(text(""), text("g")), no_id);
    assert_eq!(c.get_config(text("d"), text("")), no_group);
    assert_eq!(c.get_config_resp(text(""), text("")), no_id);
    assert_eq!(c.publish_config(text(""), text("g"), text("x")), no_id);
    assert_eq!(c.publish_config(text("d"), text(""), text("x")), no_group);
    assert_eq!(c.remove_config(text(""), text("g")), no_id);
    assert_eq!(c.remove_config(text("d"), text("")), no_group);
}

#[test]
fn empty_content_is_left_to_the_remote_side() {
    assert!(client().publish_config(text("d"), text("g"), text("")).is_ok());
}

#[test]
fn reply_to_a_fetch_is_read_field_by_field() {
    let got = NacosConfigClient::config_response(Ok(response("a: 1"))).unwrap();
    assert_eq!(
        got,
        NacosConfigResponse {
            namespace: text("tenant-a"),
            data_id: text("app.yaml"),
            group: text("DEFAULT_GROUP"),
            content: text("a: 1"),
            content_type: text("yaml"),
            md5: text("9a0364b9e99bb480dd25e1f0284c8555"),
        }
    );
    assert_eq!(NacosConfigClient::config_content(Ok(response("a: 1"))), Ok(text("a: 1")));
}

#[test]
fn failed_fetch_is_mapped_for_the_host() {
    let err = NacosConfigClient::config_content(Err(Error::ConfigNotFound(text("app.yaml"))));
    assert_eq!(
        err,
        Err(NacosError::RemoteOperation(format!(
            "{:?}",
            Error::ConfigNotFound(text("app.yaml"))
        )))
    );
    let err = NacosConfigClient::config_response(Err(Error::NoAvailableServer));
    assert_eq!(err, Err(NacosError::Connection(text("NoAvailableServer"))));
}

/// A store that answers at once, standing in for the remote side.
fn perform(
    store: &mut HashMap<(String, String), String>,
    request: ConfigRequest,
) -> Option<Result<ConfigResponse, Error>> {
    match request {
        ConfigRequest::Publish { data_id, group, content } => {
            store.insert((data_id, group), content);
            None
        }
        ConfigRequest::Remove { data_id, group } => {
            store.remove(&(data_id, group));
            None
        }
        ConfigRequest::Get { data_id, group } => {
            Some(match store.get(&(data_id.clone(), group.clone())) {
                Some(content) => Ok(ConfigResponse::new(
                    data_id,
                    group,
                    text(""),
                    content.clone(),
                    text("text"),
                    text(""),
                )),
                None => Err(Error::ConfigNotFound(data_id)),
            })
        }
    }
}

#[test]
fn put_then_get_returns_the_value() {
    let c = client();
    let mut store = HashMap::new();
    let put = c.publish_config(text("k"), text("g"), text("v1")).unwrap();
    assert!(perform(&mut store, put).is_none());
    let get = c.get_config(text("k"), text("g")).unwrap();
    let reply = perform(&mut store, get).unwrap();
    assert_eq!(NacosConfigClient::config_content(reply), Ok(text("v1")));

    let put = c.publish_config(text("k"), text("g"), text("v2")).unwrap();
    perform(&mut store, put);
    let get = c.get_config_resp(text("k"), text("g")).unwrap();
    let reply = perform(&mut store, get).unwrap();
    assert_eq!(NacosConfigClient::config_response(reply).unwrap().content, "v2");

    let remove = c.remove_config(text("k"), text("g")).unwrap();
    perform(&mut store, remove);
    let get = c.get_config(text("k"), text("g")).unwrap();
    let reply = perform(&mut store, get).unwrap();
    assert!(matches!(
        NacosConfigClient::config_content(reply),
        Err(NacosError::RemoteOperation(_))
    ));
}

#[test]
fn add_listener_then_notify_reaches_the_handler_once() {
    let mut c = client();
    let h = Handler { id: 11 };
    let (subscribed, listener) =
        c.add_listener(text("app.yaml"), text("DEFAULT_GROUP"), h).unwrap();
    assert_eq!(subscribed, Subscribed::Created);
    let t = Topic::config(text("app.yaml"), text("DEFAULT_GROUP")).unwrap();
    assert!(listener.topic().same(&t));

    assert_eq!(listener.notify(&mut c.subscriptions, response("a: 2")), PushOutcome::Queued);
    let delivery = c.subscriptions.begin_delivery(listener.topic()).unwrap();
    assert_eq!(
        delivery,
        Delivery {
            handler: h,
            event: PushEvent::ConfigSnapshot(NacosConfigResponse {
                namespace: text("tenant-a"),
                data_id: text("app.yaml"),
                group: text("DEFAULT_GROUP"),
                content: text("a: 2"),
                content_type: text("yaml"),
                md5: text("9a0364b9e99bb480dd25e1f0284c8555"),
            }),
        }
    );
    assert_eq!(c.subscriptions.begin_delivery(listener.topic()), None);
    c.subscriptions.complete_delivery(listener.topic(), None);
    assert_eq!(c.subscriptions.begin_delivery(listener.topic()), None);
}

#[test]
fn snapshot_reads_the_response() {
    match NacosConfigChangeListener::snapshot(response("x")) {
        PushEvent::ConfigSnapshot(r) => {
            assert_eq!(r.content, "x");
            assert_eq!(r.data_id, "app.yaml");
            assert_eq!(r.group, "DEFAULT_GROUP");
            assert_eq!(r.namespace, "tenant-a");
            assert_eq!(r.content_type, "yaml");
            assert_eq!(r.md5, "9a0364b9e99bb480dd25e1f0284c8555");
        }
        other => panic!("unexpected {:?}", other),
    }
}

#[test]
fn add_listener_refuses_an_empty_key_and_changes_nothing() {
    let mut c = client();
    let h = Handler { id: 1 };
    assert_eq!(
        c.add_listener(text(""), text("g"), h).err(),
        Some(NacosError::Validation(text("data_id")))
    );
    assert_eq!(
        c.add_listener(text("d"), text(""), h).err(),
        Some(NacosError::Validation(text("group")))
    );
    let t = Topic::config(text("d"), text("g")).unwrap();
    assert!(!c.subscriptions.contains(&t));
}

#[test]
fn add_listener_twice_rebinds() {
    let mut c = client();
    let (first, _) = c.add_listener(text("d"), text("g"), Handler { id: 1 }).unwrap();
    let (second, listener) = c.add_listener(text("d"), text("g"), Handler { id: 2 }).unwrap();
    assert_eq!(first, Subscribed::Created);
    assert_eq!(second, Subscribed::Rebound { previous: Some(Handler { id: 1 }) });
    assert_eq!(c.subscriptions.handler_of(listener.topic()), Some(Handler { id: 2 }));
}

#[test]
fn remove_listener_succeeds_and_the_handler_is_still_called() {
    let mut c = client();
    let h = Handler { id: 5 };
    let (_, listener) = c.add_listener(text("app.yaml"), text("DEFAULT_GROUP"), h).unwrap();
    assert_eq!(c.remove_listener(text("app.yaml"), text("DEFAULT_GROUP"), h), Ok(()));
    assert_eq!(c.remove_listener(text(""), text(""), h), Ok(()));
    assert_eq!(listener.notify(&mut c.subscriptions, response("later")), PushOutcome::Queued);
    let delivery = c.subscriptions.begin_delivery(listener.topic()).unwrap();
    assert_eq!(delivery.handler, h);
}

#[test]
fn add_listener_after_shutdown_is_refused() {
    let mut c = client();
    let (_, listener) = c.add_listener(text("d"), text("g"), Handler { id: 1 }).unwrap();
    c.subscriptions.shutdown_all();
    assert_eq!(
        c.add_listener(text("d"), text("g"), Handler { id: 2 }).err(),
        Some(NacosError::Closed)
    );
    assert_eq!(listener.notify(&mut c.subscriptions, response("x")), PushOutcome::Closed);
    assert_eq!(c.subscriptions.begin_delivery(listener.topic()), None);
}
