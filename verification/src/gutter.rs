//! Error marks shown beside the editor's text, one message per buffer line.

use std::collections::HashMap;
use vstd::prelude::*;

verus! {

broadcast use vstd::std_specs::hash::group_hash_axioms;

/// The gutter's error marks: a message for each zero-based buffer line that
/// has one, and whether any marked line is currently visible.
pub struct ErrorGutter {
    lines: HashMap<u32, String>,
    has_visible_errors: bool,
}

impl View for ErrorGutter {
    type V = Map<u32, String>;

    closed spec fn view(&self) -> Map<u32, String> {
        self.lines@
    }
}

impl ErrorGutter {
    /// Whether any marked line was within the visible lines when they were
    /// last reported.
    pub closed spec fn spec_has_visible_errors(&self) -> bool {
        self.has_visible_errors
    }

    /// A gutter with no marks.
    pub fn new() -> (r: ErrorGutter)
        ensures
            r@ == Map::<u32, String>::empty(),
            !r.spec_has_visible_errors(),
    {
        ErrorGutter { lines: HashMap::new(), has_visible_errors: false }
    }

    /// Marks `line` with `message`, replacing any earlier mark on that line.
    pub fn set_error(&mut self, line: u32, message: String)
        ensures
            final(self)@ == old(self)@.insert(line, message),
            final(self).spec_has_visible_errors() == old(self).spec_has_visible_errors(),
    {
        self.lines.insert(line, message);
    }

    /// Removes every mark.
    pub fn clear_errors(&mut self)
        ensures
            final(self)@ == Map::<u32, String>::empty(),
            final(self).spec_has_visible_errors() == old(self).spec_has_visible_errors(),
    {
        self.lines.clear();
    }

    /// Whether `line` is marked.
    pub fn has_error_on(&self, line: u32) -> (r: bool)
        ensures
            r == self@.contains_key(line),
    {
        self.lines.contains_key(&line)
    }

    /// The message on `line`, if the line is marked.
    pub fn message_for(&self, line: u32) -> (r: Option<&String>)
        ensures
            match r {
                Some(m) => self@.contains_key(line) && self@[line] == *m,
                None => !self@.contains_key(line),
            },
    {
        self.lines.get(&line)
    }

    /// Whether a mark lies on one of the lines `first..=last`.
    pub fn any_error_in(&self, first: u32, last: u32) -> (r: bool)
        ensures
            r == exists|l: u32| first <= l <= last && self@.contains_key(l),
    {
        if first > last {
            return false;
        }
        let mut l = first;
        while l < last
            invariant
                first <= l <= last,
                forall|q: u32| first <= q < l ==> !self@.contains_key(q),
            decreases last - l,
        {
            if self.lines.contains_key(&l) {
                assert(first <= l <= last && self@.contains_key(l));
                return true;
            }
            l += 1;
        }
        if self.lines.contains_key(&last) {
            assert(first <= last <= last && self@.contains_key(last));
            true
        } else {
            assert forall|q: u32| !(first <= q <= last && self@.contains_key(q)) by {
                if first <= q < last {
                    assert(!self@.contains_key(q));
                }
            }
            false
        }
    }

    /// Called when the visible lines `first..=last` are about to be drawn:
    /// records whether a mark is visible, and says whether that changed.
    pub fn update_visible_errors(&mut self, first: u32, last: u32) -> (changed: bool)
        ensures
            final(self)@ == old(self)@,
            final(self).spec_has_visible_errors() == exists|l: u32|
                first <= l <= last && old(self)@.contains_key(l),
            changed == (final(self).spec_has_visible_errors()
                != old(self).spec_has_visible_errors()),
    {
        let now_visible = self.any_error_in(first, last);
        let changed = now_visible != self.has_visible_errors;
        self.has_visible_errors = now_visible;
        changed
    }

    /// Whether any marked line was visible at the last report.
    pub fn has_visible_errors(&self) -> (r: bool)
        ensures
            r == self.spec_has_visible_errors(),
    {
        self.has_visible_errors
    }
}

} // verus!
