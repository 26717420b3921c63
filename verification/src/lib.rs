//! Chat client components for conrod: the message history and chat view
//! widgets, and the websocket client that feeds them.

pub mod backend;
pub mod custom_widget;
