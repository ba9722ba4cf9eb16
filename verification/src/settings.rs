//! The schema-backed settings: window geometry and the default layout
//! engine.

use vstd::prelude::*;

use crate::layout::LayoutEngine;
use crate::session::{DEFAULT_WINDOW_HEIGHT, DEFAULT_WINDOW_WIDTH};

verus! {

/// The values the settings store keeps between runs.
#[derive(Debug, Clone)]
pub struct Settings {
    pub window_width: i32,
    pub window_height: i32,
    pub is_maximized: bool,
    pub layout_engine: LayoutEngine,
}

impl Default for Settings {
    /// The settings before anything was stored: the default window size,
    /// not maximized, laid out with the `dot` engine.
    fn default() -> (r: Settings)
        ensures
            r.window_width == DEFAULT_WINDOW_WIDTH,
            r.window_height == DEFAULT_WINDOW_HEIGHT,
            !r.is_maximized,
            r.layout_engine == LayoutEngine::Dot,
    {
        Settings {
            window_width: DEFAULT_WINDOW_WIDTH,
            window_height: DEFAULT_WINDOW_HEIGHT,
            is_maximized: false,
            layout_engine: LayoutEngine::Dot,
        }
    }
}

} // verus!
