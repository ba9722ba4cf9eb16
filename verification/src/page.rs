//! Per-tab state: the pending re-render flag and the remembered error line.

use vstd::prelude::*;

use crate::render_error::{classify_render_error, classify_spec, RenderErrorAction};

verus! {

/// The state a page keeps between events: whether a re-render has been
/// requested since the last one, and the line of the last syntax error.
pub struct Page {
    queued_draw_graph: bool,
    line_with_error: Option<u32>,
}

impl Page {
    pub closed spec fn spec_queued(&self) -> bool {
        self.queued_draw_graph
    }

    pub closed spec fn spec_error_line(&self) -> Option<u32> {
        self.line_with_error
    }

    /// A fresh page: nothing queued, no error line.
    pub fn new() -> (r: Page)
        ensures
            !r.spec_queued(),
            r.spec_error_line() is None,
    {
        Page { queued_draw_graph: false, line_with_error: None }
    }

    /// Requests a re-render. The caller cuts the debounce timer short
    /// exactly when no render is in flight.
    pub fn queue_draw_graph(&mut self, is_rendering: bool) -> (cancel_timer: bool)
        ensures
            final(self).spec_queued(),
            final(self).spec_error_line() == old(self).spec_error_line(),
            cancel_timer == !is_rendering,
    {
        self.queued_draw_graph = true;
        !is_rendering
    }

    /// The document's text changed: the remembered error line is dropped
    /// and a re-render is requested. The caller also clears the gutter and
    /// cuts the debounce timer short exactly when `cancel_timer` says so.
    pub fn text_changed(&mut self, is_rendering: bool) -> (cancel_timer: bool)
        ensures
            final(self).spec_queued(),
            final(self).spec_error_line() is None,
            cancel_timer == !is_rendering,
    {
        self.line_with_error = None;
        self.queue_draw_graph(is_rendering)
    }

    /// The debounce timer fired: says whether to render now, and forgets
    /// the request either way.
    pub fn render_tick(&mut self) -> (render_now: bool)
        ensures
            render_now == old(self).spec_queued(),
            !final(self).spec_queued(),
            final(self).spec_error_line() == old(self).spec_error_line(),
    {
        let queued = self.queued_draw_graph;
        self.queued_draw_graph = false;
        queued
    }

    /// The renderer reported an error. A syntax error becomes the page's
    /// remembered error line; any other message leaves the page unchanged
    /// and is only shown to the user.
    pub fn handle_render_error(&mut self, message: &[u8]) -> (r: RenderErrorAction)
        ensures
            r == classify_spec(message@),
            final(self).spec_queued() == old(self).spec_queued(),
            match r {
                RenderErrorAction::MarkLine(line) => final(self).spec_error_line() == Some(line),
                _ => final(self).spec_error_line() == old(self).spec_error_line(),
            },
    {
        let action = classify_render_error(message);
        if let RenderErrorAction::MarkLine(line) = action {
            self.line_with_error = Some(line);
        }
        action
    }

    /// Whether the "go to error" button is shown: there is a remembered
    /// error line and its gutter mark is not visible.
    pub fn reveal_go_to_error(&self, has_visible_errors: bool) -> (r: bool)
        ensures
            r == (self.spec_error_line() is Some && !has_visible_errors),
    {
        self.line_with_error.is_some() && !has_visible_errors
    }

    /// The remembered error line, the target of "go to error".
    pub fn error_line(&self) -> (r: Option<u32>)
        ensures
            r == self.spec_error_line(),
    {
        self.line_with_error
    }
}

} // verus!
