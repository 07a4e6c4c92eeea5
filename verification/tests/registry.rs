use nacos_binding::{
    Delivery, Handler, NacosConfigResponse, NacosError, PushEvent, PushOutcome, Subscribed,
    SubscriptionRegistry, Topic,
};

fn snapshot(content: &str) -> PushEvent {
    PushEvent::ConfigSnapshot(NacosConfigResponse {
        namespace: "ns".to_string(),
        data_id: "app.yaml".to_string(),
        group: "DEFAULT_GROUP".to_string(),
        content: content.to_string(),
        content_type: "yaml".to_string(),
        md5: "0".to_string(),
    })
}

fn config(data_id: &str) -> Topic {
    Topic::config(data_id.to_string(), "DEFAULT_GROUP".to_string()).unwrap()
}

fn naming(service: &str, clusters: &[&str]) -> Topic {
    Topic::naming(
        service.to_string(),
        "DEFAULT_GROUP".to_string(),
        clusters.iter().map(|c| c.to_string()).collect(),
    )
    .unwrap()
}

const H1: Handler = Handler { id: 1 };
const H2: Handler = Handler { id: 2 };

#[test]
fn topics_need_their_components() {
    assert_eq!(
        Topic::config("".to_string(), "g".to_string()),
        Err(NacosError::Validation("data_id".to_string()))
    );
    assert_eq!(
        Topic::config("d".to_string(), "".to_string()),
        Err(NacosError::Validation("group".to_string()))
    );
    assert_eq!(
        Topic::config("".to_string(), "".to_string()),
        Err(NacosError::Validation("data_id".to_string()))
    );
    assert_eq!(
        Topic::naming("".to_string(), "g".to_string(), vec![]),
        Err(NacosError::Validation("service_name".to_string()))
    );
    assert_eq!(
        Topic::naming("s".to_string(), "".to_string(), vec![]),
        Err(NacosError::Validation("group".to_string()))
    );
    assert!(Topic::naming("s".to_string(), "g".to_string(), vec![]).is_ok());
}

#[test]
fn topics_compare_by_their_components() {
    assert!(config("a").same(&config("a")));
    assert!(!config("a").same(&config("b")));
    assert!(!config("svc").same(&naming("svc", &[])));
    assert!(naming("svc", &["c1", "c2"]).same(&naming("svc", &["c2", "c1"])));
    assert!(naming("svc", &["c1", "c1"]).same(&naming("svc", &["c1"])));
    assert!(!naming("svc", &["c1"]).same(&naming("svc", &["c1", "c2"])));
    assert!(!naming("svc", &[]).same(&naming("svc", &["c1"])));
    assert!(config("a").duplicate().same(&config("a")));
}

#[test]
fn subscribe_then_push_delivers_exactly_once() {
    let mut r = SubscriptionRegistry::new();
    let t = config("a");
    assert_eq!(r.subscribe(t.duplicate(), H1), Ok(Subscribed::Created));
    assert!(r.contains(&t));
    assert_eq!(r.on_push(&t, snapshot("e")), PushOutcome::Queued);
    assert_eq!(r.begin_delivery(&t), Some(Delivery { handler: H1, event: snapshot("e") }));
    assert_eq!(r.begin_delivery(&t), None);
    assert_eq!(r.complete_delivery(&t, None), None);
    assert_eq!(r.begin_delivery(&t), None);
    assert_eq!(r.pending_len(&t), 0);
}

#[test]
fn a_slow_topic_does_not_hold_up_another() {
    let mut r = SubscriptionRegistry::new();
    let t1 = config("slow");
    let t2 = config("quick");
    r.subscribe(t1.duplicate(), H1).unwrap();
    r.subscribe(t2.duplicate(), H2).unwrap();
    r.on_push(&t1, snapshot("s1"));
    r.on_push(&t1, snapshot("s2"));
    assert!(r.begin_delivery(&t1).is_some());
    assert!(r.is_busy(&t1));
    // t1's handler has not returned; t2 is served all the same
    r.on_push(&t2, snapshot("q1"));
    assert_eq!(r.begin_delivery(&t2), Some(Delivery { handler: H2, event: snapshot("q1") }));
    assert_eq!(r.complete_delivery(&t2, None), None);
    r.on_push(&t2, snapshot("q2"));
    assert_eq!(r.begin_delivery(&t2), Some(Delivery { handler: H2, event: snapshot("q2") }));
    // and t1 is still where it was
    assert!(r.is_busy(&t1));
    assert_eq!(r.pending_len(&t1), 1);
    assert_eq!(r.begin_delivery(&t1), None);
}

#[test]
fn unsubscribe_reports_success_and_the_handler_is_still_called() {
    let mut r = SubscriptionRegistry::new();
    let t = naming("order-svc", &[]);
    r.subscribe(t.duplicate(), H1).unwrap();
    assert_eq!(r.unsubscribe(&t), Ok(()));
    assert!(r.contains(&t));
    assert_eq!(r.handler_of(&t), Some(H1));
    assert_eq!(r.on_push(&t, snapshot("after")), PushOutcome::Queued);
    assert_eq!(r.begin_delivery(&t), Some(Delivery { handler: H1, event: snapshot("after") }));
}

#[test]
fn unsubscribe_of_an_unknown_topic_succeeds() {
    let r = SubscriptionRegistry::new();
    assert_eq!(r.unsubscribe(&config("never")), Ok(()));
}

#[test]
fn a_second_subscribe_replaces_the_handler() {
    let mut r = SubscriptionRegistry::new();
    let t = config("a");
    assert_eq!(r.subscribe(t.duplicate(), H1), Ok(Subscribed::Created));
    r.on_push(&t, snapshot("e1"));
    assert_eq!(
        r.subscribe(t.duplicate(), H2),
        Ok(Subscribed::Rebound { previous: Some(H1) })
    );
    assert_eq!(r.handler_of(&t), Some(H2));
    assert_eq!(r.pending_len(&t), 1);
    assert_eq!(r.begin_delivery(&t), Some(Delivery { handler: H2, event: snapshot("e1") }));
}

#[test]
fn push_for_an_unknown_topic_is_reported() {
    let mut r = SubscriptionRegistry::new();
    assert_eq!(r.on_push(&config("nobody"), snapshot("e")), PushOutcome::Unknown);
    assert_eq!(r.begin_delivery(&config("nobody")), None);
    assert_eq!(r.pending_len(&config("nobody")), 0);
    assert_eq!(r.handler_of(&config("nobody")), None);
}

#[test]
fn watch_makes_a_subscription_without_a_handler() {
    let mut r = SubscriptionRegistry::new();
    let t = naming("svc", &["c1"]);
    assert!(r.watch(t.duplicate()));
    assert!(!r.watch(t.duplicate()));
    assert!(r.contains(&t));
    assert_eq!(r.handler_of(&t), None);
    assert_eq!(r.on_push(&t, snapshot("early")), PushOutcome::NoHandler);
    assert_eq!(r.subscribe(t.duplicate(), H1), Ok(Subscribed::Rebound { previous: None }));
    assert_eq!(r.on_push(&t, snapshot("late")), PushOutcome::Queued);
    assert_eq!(r.begin_delivery(&t), Some(Delivery { handler: H1, event: snapshot("late") }));
}

#[test]
fn watch_leaves_a_registered_handler_alone() {
    let mut r = SubscriptionRegistry::new();
    let t = naming("svc", &[]);
    r.subscribe(t.duplicate(), H1).unwrap();
    assert!(!r.watch(t.duplicate()));
    assert_eq!(r.handler_of(&t), Some(H1));
}

#[test]
fn cancel_removes_one_subscription() {
    let mut r = SubscriptionRegistry::new();
    let a = config("a");
    let b = config("b");
    r.subscribe(a.duplicate(), H1).unwrap();
    r.subscribe(b.duplicate(), H2).unwrap();
    r.on_push(&a, snapshot("e1"));
    r.on_push(&a, snapshot("e2"));
    assert_eq!(r.cancel(&a), Some(2));
    assert!(!r.contains(&a));
    assert!(r.contains(&b));
    assert_eq!(r.cancel(&a), None);
    assert_eq!(r.on_push(&a, snapshot("e3")), PushOutcome::Unknown);
    assert_eq!(r.subscribe(a.duplicate(), H1), Ok(Subscribed::Created));
}

#[test]
fn shutdown_during_a_call_prevents_every_new_delivery() {
    let mut r = SubscriptionRegistry::new();
    let t = config("a");
    let u = naming("svc", &[]);
    r.subscribe(t.duplicate(), H1).unwrap();
    r.subscribe(u.duplicate(), H2).unwrap();
    r.on_push(&t, snapshot("e1"));
    r.on_push(&t, snapshot("e2"));
    assert!(r.begin_delivery(&t).is_some());

    let released = r.shutdown_all();
    assert_eq!(released.len(), 2);
    assert!(released.iter().any(|x| x.same(&t)));
    assert!(released.iter().any(|x| x.same(&u)));
    assert!(r.is_closed());

    // the waiting e2 is never handed out
    assert_eq!(r.begin_delivery(&t), None);
    // the call that was in progress ends without trouble
    assert_eq!(r.complete_delivery(&t, None), None);
    assert_eq!(r.begin_delivery(&t), None);
    // nothing new gets in
    assert_eq!(r.on_push(&t, snapshot("e3")), PushOutcome::Closed);
    assert_eq!(r.subscribe(t.duplicate(), H1), Err(NacosError::Closed));
    assert!(!r.watch(t.duplicate()));
    assert!(!r.contains(&t));
    assert_eq!(r.cancel(&t), None);
    assert_eq!(r.begin_delivery(&t), None);
    // a second shutdown finds nothing to release
    assert!(r.shutdown_all().is_empty());
}

#[test]
fn a_failure_reported_after_shutdown_is_still_logged() {
    let mut r = SubscriptionRegistry::new();
    let t = config("a");
    r.subscribe(t.duplicate(), H1).unwrap();
    r.on_push(&t, snapshot("e1"));
    assert!(r.begin_delivery(&t).is_some());
    r.shutdown_all();
    assert_eq!(
        r.complete_delivery(&t, Some("late failure".to_string())),
        Some(NacosError::Delivery("late failure".to_string()))
    );
}

#[test]
fn a_failing_handler_does_not_poison_its_topic() {
    let mut r = SubscriptionRegistry::new();
    let t = config("a");
    r.subscribe(t.duplicate(), H1).unwrap();
    r.on_push(&t, snapshot("e1"));
    r.on_push(&t, snapshot("e2"));
    assert!(r.begin_delivery(&t).is_some());
    assert_eq!(
        r.complete_delivery(&t, Some("boom".to_string())),
        Some(NacosError::Delivery("boom".to_string()))
    );
    assert_eq!(r.begin_delivery(&t), Some(Delivery { handler: H1, event: snapshot("e2") }));
}
