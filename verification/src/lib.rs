//! Core logic of a Graphviz DOT editor with a live graph preview.
//!
//! The crate models the pieces of the editor that are independent of any
//! widget toolkit: export formats, layout engines, the renderer's error
//! messages, the document and session state, the recently-opened-files list,
//! and the scheduling of re-renders.

pub mod age;
pub mod cancelled;
pub mod document;
pub mod format;
pub mod gutter;
pub mod layout;
pub mod naming;
pub mod page;
pub mod paths;
pub mod preview;
pub mod recents;
pub mod render_error;
pub mod save_changes;
pub mod search;
pub mod session;
pub mod settings;
pub mod title;

pub use format::Format;
pub use layout::LayoutEngine;
pub use render_error::RenderErrorAction;
