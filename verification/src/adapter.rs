//! The adapter facade: one instance per window, constructed before the
//! window is first shown. It owns the platform adapter, forwards window
//! events to it, and exposes tree-update submission.

use vstd::prelude::*;
use crate::channel::EventProxy;
use crate::handler::ActionHandler;
use crate::handler::ActionRequestEvent;
use crate::handler::ChannelActionHandler;
use crate::platform::PlatformAdapter;
use crate::window::WindowEvent;
use crate::window::WindowId;
use accesskit::ActionRequest;
use accesskit::TreeUpdate;

verus! {

/// The per-window accessibility adapter. `S` is the one-shot producer of the
/// initial tree; `H` is the action handler that assistive-technology action
/// requests are delivered to.
pub struct Adapter<S, H> {
    window_id: WindowId,
    platform: PlatformAdapter<S, H>,
}

impl<S, H> Adapter<S, H> {
    /// The window this adapter was constructed for.
    pub closed spec fn window_id(self) -> WindowId {
        self.window_id
    }

    /// Whether an assistive-technology connection is currently active.
    pub closed spec fn active(self) -> bool {
        self.platform.active()
    }

    /// The initial-tree producer, while it has not been consumed yet.
    pub closed spec fn pending_source(self) -> Option<S> {
        self.platform.pending_source()
    }

    /// The keyboard-focus state last reported through a window event.
    pub closed spec fn focused(self) -> bool {
        self.platform.focused()
    }

    /// The window position last reported through a window event, if any.
    pub closed spec fn position(self) -> Option<(i64, i64)> {
        self.platform.position()
    }

    /// The tree updates submitted to the platform adapter so far, oldest
    /// first.
    pub closed spec fn updates_seq(self) -> Seq<TreeUpdate> {
        self.platform.updates_seq()
    }

    /// The action handler the adapter was constructed with.
    pub closed spec fn handler(self) -> H {
        self.platform.handler()
    }

    /// Whether the platform adapter claims `event` for accessibility
    /// handling.
    pub closed spec fn consumes(self, event: WindowEvent) -> bool {
        self.platform.consumes(event)
    }

    /// The focus state after `event` is forwarded.
    pub open spec fn focused_after(self, event: WindowEvent) -> bool {
        match event {
            WindowEvent::Focused(focus) => focus,
            _ => self.focused(),
        }
    }

    /// The recorded window position after `event` is forwarded.
    pub open spec fn position_after(self, event: WindowEvent) -> Option<(i64, i64)> {
        match event {
            WindowEvent::Moved { x, y } => Some((x, y)),
            _ => self.position(),
        }
    }
}

impl<S: FnOnce() -> TreeUpdate, H> Adapter<S, H> {
    /// Well-formedness: the initial-tree producer is still callable while it
    /// is pending, and is pending only before the first activation.
    pub open spec fn wf(self) -> bool {
        &&& (self.active() ==> self.pending_source() is None)
        &&& (self.pending_source() matches Some(source) ==> source.requires(()))
    }

    /// Creates a new adapter for the window identified by `window_id`, with a
    /// caller-supplied action handler in place of dispatch through the host
    /// event queue. This must be done before the window is shown for the
    /// first time, so that the platform accessibility layer sees the window's
    /// initial state.
    pub fn with_action_handler(window_id: WindowId, source: S, action_handler: H) -> (adapter:
        Self)
        requires
            call_requires(source, ()),
        ensures
            adapter.wf(),
            adapter.window_id() == window_id,
            !adapter.active(),
            adapter.pending_source() == Some(source),
            !adapter.focused(),
            adapter.position() is None,
            adapter.updates_seq() == Seq::<TreeUpdate>::empty(),
            adapter.handler() == action_handler,
    {
        Adapter { window_id, platform: PlatformAdapter::new(source, action_handler) }
    }

    /// Records that an assistive-technology connection became active: on the
    /// first activation the one-shot tree source is invoked, exactly once,
    /// and the tree it produces is submitted. In a full deployment the native
    /// protocol layer signals this; a host or a test may call it directly to
    /// simulate an assistive technology attaching.
    pub fn activate(&mut self)
        requires
            old(self).wf(),
        ensures
            final(self).wf(),
            final(self).active(),
            final(self).pending_source() is None,
            final(self).window_id() == old(self).window_id(),
            final(self).focused() == old(self).focused(),
            final(self).position() == old(self).position(),
            final(self).handler() == old(self).handler(),
            old(self).active() ==> *final(self) == *old(self),
            old(self).pending_source() matches Some(source) ==> exists|initial: TreeUpdate|
                #[trigger] call_ensures(source, (), initial) && final(self).updates_seq()
                    == old(self).updates_seq().push(initial),
            old(self).pending_source() is None ==> final(self).updates_seq() == old(
                self,
            ).updates_seq(),
    {
        self.platform.activate();
    }

    /// Forwards a window-system event to the platform adapter and returns
    /// whether the event was consumed by accessibility handling (`true`) or
    /// should continue to normal processing (`false`): exactly what the
    /// platform adapter reports, with the event itself unchanged.
    #[must_use]
    pub fn on_event(&mut self, event: &WindowEvent) -> (consumed: bool)
        ensures
            consumed == old(self).consumes(*event),
            final(self).focused() == old(self).focused_after(*event),
            final(self).position() == old(self).position_after(*event),
            final(self).window_id() == old(self).window_id(),
            final(self).active() == old(self).active(),
            final(self).pending_source() == old(self).pending_source(),
            final(self).updates_seq() == old(self).updates_seq(),
            final(self).handler() == old(self).handler(),
    {
        self.platform.on_event(event)
    }

    /// Submits a tree update to the platform adapter unconditionally, whether
    /// or not any assistive technology is attached.
    pub fn update(&mut self, update: TreeUpdate)
        ensures
            final(self).updates_seq() == old(self).updates_seq().push(update),
            final(self).window_id() == old(self).window_id(),
            final(self).active() == old(self).active(),
            final(self).pending_source() == old(self).pending_source(),
            final(self).focused() == old(self).focused(),
            final(self).position() == old(self).position(),
            final(self).handler() == old(self).handler(),
    {
        self.platform.update(update);
    }

    /// Invokes `updater` and submits the tree update it produces only if an
    /// assistive-technology connection is active. With no connection the
    /// adapter is left exactly as it was and the producer is never run: tree
    /// updates can be expensive to build, and without a consumer there is no
    /// point in building one.
    pub fn update_if_active<F: FnOnce() -> TreeUpdate>(&mut self, updater: F)
        requires
            call_requires(updater, ()),
        ensures
            !old(self).active() ==> *final(self) == *old(self),
            old(self).active() ==> exists|produced: TreeUpdate|
                #[trigger] call_ensures(updater, (), produced) && final(self).updates_seq()
                    == old(self).updates_seq().push(produced),
            final(self).window_id() == old(self).window_id(),
            final(self).active() == old(self).active(),
            final(self).pending_source() == old(self).pending_source(),
            final(self).focused() == old(self).focused(),
            final(self).position() == old(self).position(),
            final(self).handler() == old(self).handler(),
    {
        self.platform.update_if_active(updater);
    }

    /// Reports whether an assistive-technology connection is active.
    pub fn is_active(&self) -> (active: bool)
        ensures
            active == self.active(),
    {
        self.platform.is_active()
    }
}

impl<S: FnOnce() -> TreeUpdate, T: From<ActionRequestEvent> + Send + 'static> Adapter<
    S,
    ChannelActionHandler<T>,
> {
    /// Creates a new adapter for the window identified by `window_id`, with
    /// an action handler that dispatches every assistive-technology action
    /// request through the host event queue reached by `proxy`, bound to that
    /// same window. This must be done before the window is shown for the
    /// first time, so that the platform accessibility layer sees the
    /// window's initial state.
    pub fn new(window_id: WindowId, source: S, proxy: EventProxy<T>) -> (adapter: Self)
        requires
            call_requires(source, ()),
        ensures
            adapter.wf(),
            adapter.window_id() == window_id,
            adapter.handler().window_id() == window_id,
            !adapter.active(),
            adapter.pending_source() == Some(source),
            !adapter.focused(),
            adapter.position() is None,
            adapter.updates_seq() == Seq::<TreeUpdate>::empty(),
    {
        let action_handler = ChannelActionHandler::new(window_id, proxy);
        Self::with_action_handler(window_id, source, action_handler)
    }
}

impl<S, H: ActionHandler> Adapter<S, H> {
    /// Delivers an action request from assistive technology to the handler
    /// this adapter was constructed with. In a full deployment the platform
    /// accessibility layer makes this call, possibly from its own thread; a
    /// host or a test may call it directly to simulate a request.
    pub fn dispatch_action(&self, request: ActionRequest) {
        self.platform.dispatch_action(request);
    }
}

/// Law: every action request dispatched through an adapter whose channel
/// handler was bound at construction is submitted as an event that carries
/// the very window identifier the adapter was constructed with, and the
/// request itself, unchanged.
pub proof fn lemma_action_event_bound_to_window<S, T: From<ActionRequestEvent> + Send + 'static>(
    adapter: Adapter<S, ChannelActionHandler<T>>,
    request: ActionRequest,
)
    requires
        adapter.handler().window_id() == adapter.window_id(),
    ensures
        adapter.handler().event_spec(request).window_id == adapter.window_id(),
        adapter.handler().event_spec(request).request == request,
{
}

/// Law: the one-shot initial-tree source is consumed no later than the first
/// activation; once a connection is active, no producer is pending any more,
/// so it can never be invoked a second time.
pub proof fn lemma_source_consumed_once_active<S: FnOnce() -> TreeUpdate, H>(
    adapter: Adapter<S, H>,
)
    requires
        adapter.wf(),
        adapter.active(),
    ensures
        adapter.pending_source() is None,
{
}

} // verus!
