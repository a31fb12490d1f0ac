//! A model of the per-window platform accessibility adapter that the facade
//! owns. The native screen-reader protocol lives outside this library; what
//! is kept here is the state the bridge's contract depends on: whether an
//! assistive-technology connection is active, the one-shot source of the
//! initial tree, the window state mirrored from forwarded events, and, as
//! ghost history, the sequence of tree updates submitted so far.

use vstd::prelude::*;
use crate::handler::ActionHandler;
use crate::window::WindowEvent;
use accesskit::ActionRequest;
use accesskit::TreeUpdate;

verus! {

/// The platform adapter model. `S` is the one-shot producer of the initial
/// accessibility tree; `H` is the action handler the adapter delivers
/// assistive-technology action requests to.
pub struct PlatformAdapter<S, H> {
    handler: H,
    source: Option<S>,
    active: bool,
    focused: bool,
    position: Option<(i64, i64)>,
    updates: Ghost<Seq<TreeUpdate>>,
}

impl<S, H> PlatformAdapter<S, H> {
    /// Whether an assistive-technology connection is currently active.
    pub closed spec fn active(self) -> bool {
        self.active
    }

    /// The initial-tree producer, while it has not been consumed yet.
    pub closed spec fn pending_source(self) -> Option<S> {
        self.source
    }

    /// The keyboard-focus state last reported through a window event.
    pub closed spec fn focused(self) -> bool {
        self.focused
    }

    /// The window position last reported through a window event, if any.
    pub closed spec fn position(self) -> Option<(i64, i64)> {
        self.position
    }

    /// The tree updates submitted to the adapter so far, oldest first.
    pub closed spec fn updates_seq(self) -> Seq<TreeUpdate> {
        self.updates@
    }

    /// The action handler the adapter was constructed with.
    pub closed spec fn handler(self) -> H {
        self.handler
    }

    /// Whether the adapter claims `event` for accessibility handling instead
    /// of letting it continue to normal processing. What the native protocol
    /// layer would claim is its own affair; this model observes window events
    /// but never consumes them.
    pub closed spec fn consumes(self, event: WindowEvent) -> bool {
        false
    }

    /// The focus state after `event` is forwarded.
    pub open spec fn focused_after(self, event: WindowEvent) -> bool {
        match event {
            WindowEvent::Focused(focus) => focus,
            _ => self.focused(),
        }
    }

    /// The recorded window position after `event` is forwarded.
    pub open spec fn position_after(self, event: WindowEvent) -> Option<(i64, i64)> {
        match event {
            WindowEvent::Moved { x, y } => Some((x, y)),
            _ => self.position(),
        }
    }
}

impl<S: FnOnce() -> TreeUpdate, H> PlatformAdapter<S, H> {
    /// Well-formedness: the initial-tree producer is still callable while it
    /// is pending, and is pending only before the first activation.
    pub open spec fn wf(self) -> bool {
        &&& (self.active() ==> self.pending_source() is None)
        &&& (self.pending_source() matches Some(source) ==> source.requires(()))
    }

    /// Creates the adapter in its initial state: no assistive-technology
    /// connection, the initial-tree producer not yet invoked, no updates
    /// submitted, and no window state observed yet.
    pub fn new(source: S, handler: H) -> (adapter: Self)
        requires
            call_requires(source, ()),
        ensures
            adapter.wf(),
            !adapter.active(),
            adapter.pending_source() == Some(source),
            !adapter.focused(),
            adapter.position() is None,
            adapter.updates_seq() == Seq::<TreeUpdate>::empty(),
            adapter.handler() == handler,
    {
        PlatformAdapter {
            handler,
            source: Some(source),
            active: false,
            focused: false,
            position: None,
            updates: Ghost(Seq::empty()),
        }
    }

    /// Records that an assistive-technology connection became active. On the
    /// first activation the one-shot tree source is invoked, exactly once,
    /// and the tree it produces is submitted; a repeated activation changes
    /// nothing.
    pub fn activate(&mut self)
        requires
            old(self).wf(),
        ensures
            final(self).wf(),
            final(self).active(),
            final(self).pending_source() is None,
            final(self).focused() == old(self).focused(),
            final(self).position() == old(self).position(),
            final(self).handler() == old(self).handler(),
            old(self).active() ==> *final(self) == *old(self),
            old(self).pending_source() matches Some(source) ==> exists|initial: TreeUpdate|
                #[trigger] call_ensures(source, (), initial) && final(self).updates_seq()
                    == old(self).updates_seq().push(initial),
            old(self).pending_source() is None ==> final(self).updates_seq() == old(
                self,
            ).updates_seq(),
    {
        if !self.active {
            self.active = true;
            let mut taken: Option<S> = None;
            core::mem::swap(&mut taken, &mut self.source);
            match taken {
                Some(source) => {
                    let initial = source();
                    self.updates = Ghost(self.updates@.push(initial));
                },
                None => {},
            }
        }
    }

    /// Forwards a window-system event to the adapter and reports whether the
    /// event was consumed by accessibility handling (`true`) or should
    /// continue to normal processing (`false`). Pure forwarding: the adapter
    /// mirrors the focus and position payloads and claims nothing else.
    pub fn on_event(&mut self, event: &WindowEvent) -> (consumed: bool)
        ensures
            consumed == old(self).consumes(*event),
            final(self).focused() == old(self).focused_after(*event),
            final(self).position() == old(self).position_after(*event),
            final(self).active() == old(self).active(),
            final(self).pending_source() == old(self).pending_source(),
            final(self).updates_seq() == old(self).updates_seq(),
            final(self).handler() == old(self).handler(),
    {
        match *event {
            WindowEvent::Moved { x, y } => {
                self.position = Some((x, y));
            },
            WindowEvent::Focused(focus) => {
                self.focused = focus;
            },
            WindowEvent::Other => {},
        }
        false
    }

    /// Submits a tree update unconditionally, whether or not an
    /// assistive-technology connection is active.
    pub fn update(&mut self, update: TreeUpdate)
        ensures
            final(self).updates_seq() == old(self).updates_seq().push(update),
            final(self).active() == old(self).active(),
            final(self).pending_source() == old(self).pending_source(),
            final(self).focused() == old(self).focused(),
            final(self).position() == old(self).position(),
            final(self).handler() == old(self).handler(),
    {
        self.updates = Ghost(self.updates@.push(update));
    }

    /// Reports whether an assistive-technology connection is active.
    pub fn is_active(&self) -> (active: bool)
        ensures
            active == self.active(),
    {
        self.active
    }

    /// Invokes `updater` and submits the tree update it produces only if an
    /// assistive-technology connection is active; with no connection the
    /// adapter is left exactly as it was and the producer is never run.
    pub fn update_if_active<F: FnOnce() -> TreeUpdate>(&mut self, updater: F)
        requires
            call_requires(updater, ()),
        ensures
            !old(self).active() ==> *final(self) == *old(self),
            old(self).active() ==> exists|produced: TreeUpdate|
                #[trigger] call_ensures(updater, (), produced) && final(self).updates_seq()
                    == old(self).updates_seq().push(produced),
            final(self).active() == old(self).active(),
            final(self).pending_source() == old(self).pending_source(),
            final(self).focused() == old(self).focused(),
            final(self).position() == old(self).position(),
            final(self).handler() == old(self).handler(),
    {
        if self.active {
            let produced = updater();
            self.updates = Ghost(self.updates@.push(produced));
        }
    }
}

impl<S, H: ActionHandler> PlatformAdapter<S, H> {
    /// Delivers an action request from assistive technology to the handler
    /// this adapter was constructed with. In a full deployment the native
    /// protocol layer makes this call, possibly from its own thread.
    pub fn dispatch_action(&self, request: ActionRequest) {
        self.handler.do_action(request);
    }
}

} // verus!
