use accesskit::Action;
use accesskit::ActionRequest;
use accesskit::NodeId;
use accesskit::TreeId;
use accesskit::TreeUpdate;
use accesskit_bridge::ActionHandler;
use accesskit_bridge::ActionRequestEvent;
use accesskit_bridge::Adapter;
use accesskit_bridge::ChannelActionHandler;
use accesskit_bridge::EventProxy;
use accesskit_bridge::WindowEvent;
use accesskit_bridge::WindowId;
use std::cell::Cell;
use std::rc::Rc;
use std::sync::mpsc;

/// A caller-supplied action handler that counts the requests it receives.
struct Recorder {
    count: Rc<Cell<u32>>,
}

impl ActionHandler for Recorder {
    fn do_action(&self, request: ActionRequest) {
        assert_eq!(request.target_node, NodeId(8));
        self.count.set(self.count.get() + 1);
    }
}

/// The embedding application's user-event type: accessibility action events
/// are one variant of it.
#[derive(Debug)]
enum HostEvent {
    Accessibility(ActionRequestEvent),
}

impl From<ActionRequestEvent> for HostEvent {
    fn from(event: ActionRequestEvent) -> Self {
        HostEvent::Accessibility(event)
    }
}

fn sample_update(focus: u64) -> TreeUpdate {
    TreeUpdate { nodes: vec![], tree: None, tree_id: TreeId::ROOT, focus: NodeId(focus) }
}

fn sample_request(target: u64) -> ActionRequest {
    ActionRequest {
        action: Action::Click,
        target_tree: TreeId::ROOT,
        target_node: NodeId(target),
        data: None,
    }
}

#[test]
fn dispatch_delivers_one_event_with_bound_window_id() {
    let (tx, rx) = mpsc::channel::<HostEvent>();
    let handler = ChannelActionHandler::new(WindowId(7), EventProxy::new(tx));
    handler.do_action(sample_request(3));
    let HostEvent::Accessibility(event) = rx.try_recv().expect("one event should be queued");
    assert_eq!(event.window_id, WindowId(7));
    assert_eq!(event.request.target_node, NodeId(3));
    assert_eq!(event.request.action, Action::Click);
    assert!(rx.try_recv().is_err(), "exactly one event per dispatch");
}

#[test]
fn dispatch_after_event_loop_teardown_is_a_silent_no_op() {
    let (tx, rx) = mpsc::channel::<HostEvent>();
    let handler = ChannelActionHandler::new(WindowId(1), EventProxy::new(tx));
    drop(rx);
    handler.do_action(sample_request(4));
    handler.do_action(sample_request(5));
}

#[test]
fn dispatch_through_adapter_after_teardown_is_a_silent_no_op() {
    let (tx, rx) = mpsc::channel::<HostEvent>();
    let mut adapter = Adapter::new(WindowId(2), || sample_update(0), EventProxy::new(tx));
    adapter.activate();
    drop(rx);
    adapter.dispatch_action(sample_request(6));
}

#[test]
fn submit_reports_whether_the_queue_still_exists() {
    let (tx, rx) = mpsc::channel::<u32>();
    let proxy = EventProxy::new(tx);
    assert!(proxy.submit(41));
    assert_eq!(rx.try_recv(), Ok(41));
    drop(rx);
    assert!(!proxy.submit(42));
}

#[test]
fn sequential_dispatches_enqueue_every_event_in_order() {
    let (tx, rx) = mpsc::channel::<HostEvent>();
    let handler = ChannelActionHandler::new(WindowId(9), EventProxy::new(tx));
    for target in 0..8u64 {
        handler.do_action(sample_request(target));
    }
    for target in 0..8u64 {
        let HostEvent::Accessibility(event) = rx.try_recv().expect("event should be queued");
        assert_eq!(event.window_id, WindowId(9));
        assert_eq!(event.request.target_node, NodeId(target));
    }
    assert!(rx.try_recv().is_err());
}

#[test]
fn adapter_dispatch_carries_the_construction_window_id() {
    let (tx, rx) = mpsc::channel::<HostEvent>();
    let adapter = Adapter::new(WindowId(11), || sample_update(0), EventProxy::new(tx));
    adapter.dispatch_action(sample_request(1));
    let HostEvent::Accessibility(event) = rx.try_recv().expect("one event should be queued");
    assert_eq!(event.window_id, WindowId(11));
    assert!(rx.try_recv().is_err());
}

#[test]
fn update_if_active_skips_the_producer_while_inactive() {
    let (tx, _rx) = mpsc::channel::<HostEvent>();
    let mut adapter = Adapter::new(WindowId(3), || sample_update(0), EventProxy::new(tx));
    let calls = Cell::new(0u32);
    adapter.update_if_active(|| {
        calls.set(calls.get() + 1);
        sample_update(1)
    });
    assert_eq!(calls.get(), 0);
    assert!(!adapter.is_active());
}

#[test]
fn update_if_active_runs_the_producer_exactly_once_when_active() {
    let (tx, _rx) = mpsc::channel::<HostEvent>();
    let mut adapter = Adapter::new(WindowId(3), || sample_update(0), EventProxy::new(tx));
    adapter.activate();
    let calls = Cell::new(0u32);
    adapter.update_if_active(|| {
        calls.set(calls.get() + 1);
        sample_update(1)
    });
    assert_eq!(calls.get(), 1);
}

#[test]
fn scenario_conditional_update_around_an_attach() {
    let (tx, _rx) = mpsc::channel::<HostEvent>();
    let source_calls = Cell::new(0u32);
    let mut adapter = Adapter::new(
        WindowId(21),
        || {
            source_calls.set(source_calls.get() + 1);
            sample_update(0)
        },
        EventProxy::new(tx),
    );
    let producer_calls = Cell::new(0u32);
    adapter.update_if_active(|| {
        producer_calls.set(producer_calls.get() + 1);
        sample_update(2)
    });
    assert_eq!(producer_calls.get(), 0, "no assistive technology is attached yet");
    assert_eq!(source_calls.get(), 0, "the tree source is only consulted on activation");
    adapter.activate();
    assert_eq!(source_calls.get(), 1);
    adapter.update_if_active(|| {
        producer_calls.set(producer_calls.get() + 1);
        sample_update(3)
    });
    assert_eq!(producer_calls.get(), 1);
}

#[test]
fn tree_source_is_invoked_at_most_once() {
    let (tx, _rx) = mpsc::channel::<HostEvent>();
    let source_calls = Cell::new(0u32);
    let mut adapter = Adapter::new(
        WindowId(5),
        || {
            source_calls.set(source_calls.get() + 1);
            sample_update(0)
        },
        EventProxy::new(tx),
    );
    adapter.activate();
    adapter.activate();
    adapter.activate();
    assert_eq!(source_calls.get(), 1);
    assert!(adapter.is_active());
}

#[test]
fn on_event_reports_the_platform_adapter_flag() {
    let (tx, _rx) = mpsc::channel::<HostEvent>();
    let mut adapter = Adapter::new(WindowId(4), || sample_update(0), EventProxy::new(tx));
    let events = [
        WindowEvent::Focused(true),
        WindowEvent::Focused(false),
        WindowEvent::Moved { x: -3, y: 44 },
        WindowEvent::Other,
    ];
    for event in events {
        let consumed = adapter.on_event(&event);
        assert!(!consumed, "this adapter observes window events without claiming them");
    }
}

#[test]
fn update_is_accepted_without_an_active_connection() {
    let (tx, _rx) = mpsc::channel::<HostEvent>();
    let mut adapter = Adapter::new(WindowId(6), || sample_update(0), EventProxy::new(tx));
    adapter.update(sample_update(9));
    assert!(!adapter.is_active());
}

#[test]
fn caller_supplied_action_handler_receives_requests() {
    let count = Rc::new(Cell::new(0u32));
    let adapter = Adapter::with_action_handler(
        WindowId(12),
        || sample_update(0),
        Recorder { count: Rc::clone(&count) },
    );
    adapter.dispatch_action(sample_request(8));
    assert_eq!(count.get(), 1);
    adapter.dispatch_action(sample_request(8));
    assert_eq!(count.get(), 2);
}
