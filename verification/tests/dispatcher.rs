use nacos_binding::{
    Delivery, Dispatcher, Handler, NacosConfigResponse, NacosError, PushEvent, PushOutcome,
};

fn snapshot(content: &str) -> PushEvent {
    PushEvent::ConfigSnapshot(NacosConfigResponse {
        namespace: "ns".to_string(),
        data_id: "app.yaml".to_string(),
        group: "DEFAULT_GROUP".to_string(),
        content: content.to_string(),
        content_type: "yaml".to_string(),
        md5: "0".to_string(),
    })
}

const H: Handler = Handler { id: 7 };

#[test]
fn attach_starts_idle_and_empty() {
    let mut d = Dispatcher::attach(H);
    assert_eq!(d.handler(), Some(H));
    assert!(d.is_attached());
    assert!(!d.is_busy());
    assert_eq!(d.pending_len(), 0);
    assert_eq!(d.begin_delivery(), None);
}

#[test]
fn events_are_delivered_in_push_order_one_at_a_time() {
    let mut d = Dispatcher::attach(H);
    assert_eq!(d.on_push(snapshot("e1")), PushOutcome::Queued);
    assert_eq!(d.on_push(snapshot("e2")), PushOutcome::Queued);
    assert_eq!(d.pending_len(), 2);

    assert_eq!(d.begin_delivery(), Some(Delivery { handler: H, event: snapshot("e1") }));
    assert!(d.is_busy());
    // e2 does not begin while the call for e1 is in progress
    assert_eq!(d.begin_delivery(), None);
    assert_eq!(d.pending_len(), 1);

    assert_eq!(d.complete_delivery(None), None);
    assert!(!d.is_busy());
    assert_eq!(d.begin_delivery(), Some(Delivery { handler: H, event: snapshot("e2") }));
    assert_eq!(d.complete_delivery(None), None);
    assert_eq!(d.begin_delivery(), None);
}

#[test]
fn push_while_busy_is_queued_behind() {
    let mut d = Dispatcher::attach(H);
    d.on_push(snapshot("e1"));
    assert!(d.begin_delivery().is_some());
    assert_eq!(d.on_push(snapshot("e2")), PushOutcome::Queued);
    assert_eq!(d.on_push(snapshot("e3")), PushOutcome::Queued);
    assert_eq!(d.begin_delivery(), None);
    d.complete_delivery(None);
    assert_eq!(d.begin_delivery().map(|x| x.event), Some(snapshot("e2")));
    d.complete_delivery(None);
    assert_eq!(d.begin_delivery().map(|x| x.event), Some(snapshot("e3")));
}

#[test]
fn a_failed_call_is_logged_and_the_next_event_still_goes_out() {
    let mut d = Dispatcher::attach(H);
    d.on_push(snapshot("bad"));
    d.on_push(snapshot("good"));
    assert!(d.begin_delivery().is_some());
    let logged = d.complete_delivery(Some("handler raised".to_string()));
    assert_eq!(logged, Some(NacosError::Delivery("handler raised".to_string())));
    assert!(!d.is_busy());
    assert_eq!(d.begin_delivery(), Some(Delivery { handler: H, event: snapshot("good") }));
}

#[test]
fn detach_drops_what_waits_and_takes_nothing_more() {
    let mut d = Dispatcher::attach(H);
    d.on_push(snapshot("e1"));
    d.on_push(snapshot("e2"));
    d.on_push(snapshot("e3"));
    assert!(d.begin_delivery().is_some());
    assert_eq!(d.detach(), 2);
    assert!(!d.is_attached());
    // the call in progress is left alone
    assert!(d.is_busy());
    assert_eq!(d.on_push(snapshot("e4")), PushOutcome::Detached);
    assert_eq!(d.pending_len(), 0);
    assert_eq!(d.complete_delivery(None), None);
    assert_eq!(d.begin_delivery(), None);
}

#[test]
fn without_a_handler_nothing_is_queued() {
    let mut d = Dispatcher::watching();
    assert_eq!(d.handler(), None);
    assert_eq!(d.on_push(snapshot("e1")), PushOutcome::NoHandler);
    assert_eq!(d.pending_len(), 0);
    assert_eq!(d.begin_delivery(), None);
    assert_eq!(d.rebind(H), None);
    assert_eq!(d.on_push(snapshot("e2")), PushOutcome::Queued);
    assert_eq!(d.begin_delivery(), Some(Delivery { handler: H, event: snapshot("e2") }));
}

#[test]
fn rebind_gives_waiting_events_to_the_new_handler() {
    let mut d = Dispatcher::attach(H);
    d.on_push(snapshot("e1"));
    let other = Handler { id: 8 };
    assert_eq!(d.rebind(other), Some(H));
    assert_eq!(d.begin_delivery(), Some(Delivery { handler: other, event: snapshot("e1") }));
}

#[test]
fn rebind_after_detach_changes_nothing() {
    let mut d = Dispatcher::attach(H);
    d.detach();
    assert_eq!(d.rebind(Handler { id: 9 }), Some(H));
    assert_eq!(d.handler(), Some(H));
}

#[test]
fn completing_when_idle_is_harmless() {
    let mut d = Dispatcher::attach(H);
    assert_eq!(d.complete_delivery(None), None);
    assert!(!d.is_busy());
    d.on_push(snapshot("e1"));
    assert!(d.begin_delivery().is_some());
}
