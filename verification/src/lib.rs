//! The control plane of a keyboard-driven terminal dashboard for a
//! publish/subscribe graph: the events that drive it, the scrollable list
//! model behind the node and topic panes, the pane focus and navigation state
//! machine, and the bookkeeping that turns graph listings into discovery
//! events.

pub mod app;
pub mod event;
pub mod list;
pub mod pane;
pub mod table;
pub mod text;
pub mod watcher;
