//! A bridge between a host window system's event loop and an accessibility
//! engine: a thread-safe action-dispatch channel plus an adapter facade that
//! forwards window events and accessibility-tree updates to a per-window
//! platform adapter.

mod adapter;
mod channel;
mod engine;
mod handler;
mod platform;
mod window;

pub use adapter::Adapter;
pub use adapter::lemma_action_event_bound_to_window;
pub use adapter::lemma_source_consumed_once_active;
pub use channel::EventProxy;
pub use handler::ActionHandler;
pub use handler::ActionRequestEvent;
pub use handler::ChannelActionHandler;
pub use platform::PlatformAdapter;
pub use window::WindowEvent;
pub use window::WindowId;
