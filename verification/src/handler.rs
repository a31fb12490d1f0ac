//! The action handler: the accessibility engine's action-dispatch capability,
//! implemented by packaging each action request together with the identity of
//! the window it was bound to at construction and submitting the pair through
//! the event channel bridge.

use vstd::prelude::*;
use crate::channel::EventProxy;
use crate::window::WindowId;
use accesskit::ActionRequest;

verus! {

/// A one-shot message pairing an action request from assistive technology
/// with the window it targets. Created at the moment an action is
/// dispatched, consumed once by the host event loop.
#[derive(Debug)]
pub struct ActionRequestEvent {
    pub window_id: WindowId,
    pub request: ActionRequest,
}

/// The accessibility engine's action-dispatch capability: the engine invokes
/// it, on any thread, whenever the user or an assistive technology requests
/// an action. The embedding application may supply its own implementation
/// instead of dispatching through the host event queue.
pub trait ActionHandler {
    fn do_action(&self, request: ActionRequest);
}

/// An action handler bound to one window at construction and never
/// re-targeted: every request it dispatches is submitted through the host
/// event queue as an [`ActionRequestEvent`] carrying that window's identity.
#[verifier::reject_recursive_types(T)]
pub struct ChannelActionHandler<T> {
    window_id: WindowId,
    proxy: EventProxy<T>,
}

impl<T> ChannelActionHandler<T> {
    /// The window this handler was bound to at construction.
    pub closed spec fn window_id(self) -> WindowId {
        self.window_id
    }

    /// The event that dispatching `request` through this handler submits.
    pub open spec fn event_spec(self, request: ActionRequest) -> ActionRequestEvent {
        ActionRequestEvent { window_id: self.window_id(), request }
    }
}

impl<T: From<ActionRequestEvent> + Send + 'static> ChannelActionHandler<T> {
    /// Binds the handler to `window_id` and to the host's submission handle.
    pub fn new(window_id: WindowId, proxy: EventProxy<T>) -> (handler: Self)
        ensures
            handler.window_id() == window_id,
    {
        ChannelActionHandler { window_id, proxy }
    }

    /// Builds the event that `request` is dispatched as: the request itself,
    /// paired with the bound window's identity.
    pub fn event_for(&self, request: ActionRequest) -> (event: ActionRequestEvent)
        ensures
            event == self.event_spec(request),
    {
        ActionRequestEvent { window_id: self.window_id, request }
    }
}

impl<T: From<ActionRequestEvent> + Send + 'static> ActionHandler for ChannelActionHandler<T> {
    /// Packages `request` with the bound window identity, converts the event
    /// into the application's user-event type, and submits it: exactly one
    /// submission per request. A failed submission (the host event loop is
    /// already gone) is dropped silently; by then there is no recipient that
    /// could act on it.
    fn do_action(&self, request: ActionRequest) {
        let event = self.event_for(request);
        let _ = self.proxy.submit(T::from(event));
    }
}

} // verus!
