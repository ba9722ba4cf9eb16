//! The persisted session: the open windows with their pages, and the
//! decisions the session makes when files are opened, windows close, or the
//! state changes.

use vstd::prelude::*;

use crate::layout::LayoutEngine;

verus! {

/// The width a new window gets when none is remembered.
pub const DEFAULT_WINDOW_WIDTH: i32 = 1000;

/// The height a new window gets when none is remembered.
pub const DEFAULT_WINDOW_HEIGHT: i32 = 600;

/// A document's selection: the insert mark and the selection bound, each as
/// a line and an offset within the line.
#[derive(Debug, Clone, PartialEq, Eq, Structural)]
pub struct SelectionState {
    pub start_line: i32,
    pub start_line_offset: i32,
    pub end_line: i32,
    pub end_line_offset: i32,
}

/// What is remembered of one page across sessions.
#[derive(Debug, Clone)]
pub struct PageState {
    /// The position of the split between editor and preview.
    pub paned_position: i32,
    /// Whether this page was the window's selected page.
    pub is_active: bool,
    /// The identifier of the page's file; `None` for a draft.
    pub uri: Option<String>,
    /// The document's selection.
    pub selection: SelectionState,
    /// The page's chosen layout engine.
    pub layout_engine: LayoutEngine,
}

/// What is remembered of one window across sessions.
#[derive(Debug, Clone)]
pub struct WindowState {
    pub width: i32,
    pub height: i32,
    pub is_maximized: bool,
    /// Whether this window was the one in front.
    pub is_active: bool,
    pub pages: Vec<PageState>,
    /// Pages that were closed and can be brought back.
    pub closed_pages: Vec<PageState>,
}

/// The whole persisted session.
#[derive(Debug, Clone)]
pub struct SessionState {
    pub default_window_width: i32,
    pub default_window_height: i32,
    pub windows: Vec<WindowState>,
}

/// The size a new window gets: the remembered size where one is known,
/// the default otherwise.
pub fn effective_window_size(width: i32, height: i32) -> (r: (i32, i32))
    ensures
        width > 0 && height > 0 ==> r == (width, height),
        !(width > 0 && height > 0) ==> r == (DEFAULT_WINDOW_WIDTH, DEFAULT_WINDOW_HEIGHT),
{
    if width > 0 && height > 0 {
        (width, height)
    } else {
        (DEFAULT_WINDOW_WIDTH, DEFAULT_WINDOW_HEIGHT)
    }
}

/// The page to select after restoring a window: the last page marked
/// active, if any.
pub fn active_page_index(pages: &Vec<PageState>) -> (r: Option<usize>)
    ensures
        match r {
            Some(i) => i < pages@.len() && pages@[i as int].is_active && (forall|j: int|
                i < j < pages@.len() ==> !pages@[j].is_active),
            None => forall|j: int| 0 <= j < pages@.len() ==> !pages@[j].is_active,
        },
{
    let mut i = pages.len();
    while i > 0
        invariant
            i <= pages@.len(),
            forall|j: int| i <= j < pages@.len() ==> !pages@[j].is_active,
        decreases i,
    {
        if pages[i - 1].is_active {
            return Some(i - 1);
        }
        i -= 1;
    }
    None
}

/// The window to present after restoring the session: the last window
/// marked active, if any.
pub fn active_window_index(windows: &Vec<WindowState>) -> (r: Option<usize>)
    ensures
        match r {
            Some(i) => i < windows@.len() && windows@[i as int].is_active && (forall|j: int|
                i < j < windows@.len() ==> !windows@[j].is_active),
            None => forall|j: int| 0 <= j < windows@.len() ==> !windows@[j].is_active,
        },
{
    let mut i = windows.len();
    while i > 0
        invariant
            i <= windows@.len(),
            forall|j: int| i <= j < windows@.len() ==> !windows@[j].is_active,
        decreases i,
    {
        if windows[i - 1].is_active {
            return Some(i - 1);
        }
        i -= 1;
    }
    None
}

/// Where requested files are opened.
#[derive(Debug, Clone, Copy, PartialEq, Eq, Structural)]
pub enum OpenFilesPlan {
    /// No files were given; nothing to do.
    Ignore,
    /// The one file is already open: bring that window and page forward.
    Present { window: usize, page: usize },
    /// Load the one file into the target window's selected page, which can
    /// be discarded safely.
    LoadInSelected,
    /// Load the one file into a new page of the target window.
    LoadInNewPage,
    /// Load every file into a new page of the target window.
    LoadAllInNewPages,
}

/// The file `uri` is open on page `p` of window `w`.
pub open spec fn uri_open_at(open_uris: Seq<Vec<Option<String>>>, w: int, p: int, uri: Seq<char>) -> bool {
    &&& 0 <= w < open_uris.len()
    &&& 0 <= p < open_uris[w]@.len()
    &&& open_uris[w]@[p] matches Some(u) && u@ == uri
}

/// The file `uri` is open somewhere.
pub open spec fn uri_open(open_uris: Seq<Vec<Option<String>>>, uri: Seq<char>) -> bool {
    exists|w: int, p: int| uri_open_at(open_uris, w, p, uri)
}

/// Decides where to open `files`, given for every window the file of each
/// of its pages (`None` for drafts), and whether the target window's
/// selected page exists and can be discarded safely. A single file that is
/// already open is only brought forward, at its first place in the order
/// the windows and pages are given in.
pub fn plan_open_files(
    files: &Vec<String>,
    open_uris: &Vec<Vec<Option<String>>>,
    selected_page_discardable: bool,
) -> (r: OpenFilesPlan)
    ensures
        files@.len() == 0 ==> r == OpenFilesPlan::Ignore,
        files@.len() > 1 ==> r == OpenFilesPlan::LoadAllInNewPages,
        files@.len() == 1 && !uri_open(open_uris@, files@[0]@) ==> r == (
        if selected_page_discardable {
            OpenFilesPlan::LoadInSelected
        } else {
            OpenFilesPlan::LoadInNewPage
        }),
        files@.len() == 1 && uri_open(open_uris@, files@[0]@) ==> (r matches
            OpenFilesPlan::Present { window, page } && uri_open_at(
            open_uris@,
            window as int,
            page as int,
            files@[0]@,
        ) && (forall|w: int, p: int|
            uri_open_at(open_uris@, w, p, files@[0]@) ==> w > window || (w == window && p
                >= page))),
{
    let n_files = files.len();
    if n_files == 0 {
        return OpenFilesPlan::Ignore;
    }
    if n_files > 1 {
        return OpenFilesPlan::LoadAllInNewPages;
    }
    let uri = &files[0];
    let n_windows = open_uris.len();
    let mut w: usize = 0;
    while w < n_windows
        invariant
            n_windows == open_uris@.len(),
            w <= n_windows,
            files@.len() == 1,
            uri@ == files@[0]@,
            forall|w0: int, p0: int| w0 < w ==> !uri_open_at(open_uris@, w0, p0, files@[0]@),
        decreases n_windows - w,
    {
        let pages = &open_uris[w];
        let n_pages = pages.len();
        let mut p: usize = 0;
        while p < n_pages
            invariant
                n_windows == open_uris@.len(),
                w < n_windows,
                n_pages == open_uris@[w as int]@.len(),
                p <= n_pages,
                files@.len() == 1,
                uri@ == files@[0]@,
                pages@ == open_uris@[w as int]@,
                forall|w0: int, p0: int| w0 < w ==> !uri_open_at(open_uris@, w0, p0, files@[0]@),
                forall|p0: int| p0 < p ==> !uri_open_at(open_uris@, w as int, p0, files@[0]@),
            decreases n_pages - p,
        {
            let matches_here = match &pages[p] {
                Option::Some(u) => *u == *uri,
                Option::None => false,
            };
            if matches_here {
                assert(uri_open_at(open_uris@, w as int, p as int, files@[0]@));
                assert forall|w0: int, p0: int|
                    uri_open_at(open_uris@, w0, p0, files@[0]@) implies w0 > w as int || (w0
                    == w as int && p0 >= p as int) by {
                    if w0 < w as int {
                        assert(!uri_open_at(open_uris@, w0, p0, files@[0]@));
                    } else if w0 == w as int && p0 < p as int {
                        assert(!uri_open_at(open_uris@, w0, p0, files@[0]@));
                    }
                }
                return OpenFilesPlan::Present { window: w, page: p };
            } else {
                assert(!uri_open_at(open_uris@, w as int, p as int, files@[0]@));
            }
            p += 1;
        }
        w += 1;
    }
    assert forall|w0: int, p0: int| !uri_open_at(open_uris@, w0, p0, files@[0]@) by {
        if 0 <= w0 < open_uris@.len() {
            assert(!uri_open_at(open_uris@, w0, p0, files@[0]@));
        }
    }
    if selected_page_discardable {
        OpenFilesPlan::LoadInSelected
    } else {
        OpenFilesPlan::LoadInNewPage
    }
}

/// The positions of the modified entries, in order: the pages whose
/// documents have unsaved changes, for the save-changes dialog.
pub fn modified_indices(modified: &Vec<bool>) -> (r: Vec<usize>)
    ensures
        forall|k: int| 0 <= k < r@.len() ==> r@[k] < modified@.len() && modified@[r@[k] as int],
        forall|k1: int, k2: int| 0 <= k1 < k2 < r@.len() ==> r@[k1] < r@[k2],
        forall|i: int| 0 <= i < modified@.len() && modified@[i] ==> r@.contains(i as usize),
{
    let n = modified.len();
    let mut out: Vec<usize> = Vec::new();
    let mut i: usize = 0;
    while i < n
        invariant
            n == modified@.len(),
            i <= n,
            forall|k: int| 0 <= k < out@.len() ==> out@[k] < i && modified@[out@[k] as int],
            forall|k1: int, k2: int| 0 <= k1 < k2 < out@.len() ==> out@[k1] < out@[k2],
            forall|j: int| 0 <= j < i && modified@[j] ==> out@.contains(j as usize),
        decreases n - i,
    {
        if modified[i] {
            let ghost prev = out@;
            out.push(i);
            assert forall|j: int| 0 <= j < i + 1 && modified@[j] implies out@.contains(
                j as usize,
            ) by {
                if j < i {
                    assert(prev.contains(j as usize));
                    let k = choose|k: int| 0 <= k < prev.len() && prev[k] == j as usize;
                    assert(out@[k] == j as usize);
                } else {
                    assert(out@[out@.len() - 1] == i as usize);
                }
            }
        }
        i += 1;
    }
    out
}

/// Whether any entry is modified: whether closing needs to ask first.
pub fn any_modified(modified: &Vec<bool>) -> (r: bool)
    ensures
        r == exists|i: int| 0 <= i < modified@.len() && modified@[i],
{
    let n = modified.len();
    let mut i: usize = 0;
    while i < n
        invariant
            n == modified@.len(),
            i <= n,
            forall|j: int| 0 <= j < i ==> !modified@[j],
        decreases n - i,
    {
        if modified[i] {
            return true;
        }
        i += 1;
    }
    false
}

/// What to do with the logout inhibitor when the set of modified documents
/// changes.
#[derive(Debug, Clone, Copy, PartialEq, Eq, Structural)]
pub enum InhibitChange {
    /// Unsaved changes appeared: take the inhibitor.
    Acquire,
    /// No unsaved changes are left: give the inhibitor back.
    Release,
    /// Leave it as it is.
    Keep,
}

/// Decides the inhibitor change from whether any document is modified and
/// whether the inhibitor is held.
pub fn inhibit_change(has_modified: bool, has_cookie: bool) -> (r: InhibitChange)
    ensures
        has_modified && !has_cookie ==> r == InhibitChange::Acquire,
        !has_modified && has_cookie ==> r == InhibitChange::Release,
        has_modified == has_cookie ==> r == InhibitChange::Keep,
{
    if has_modified && !has_cookie {
        InhibitChange::Acquire
    } else if !has_modified && has_cookie {
        InhibitChange::Release
    } else {
        InhibitChange::Keep
    }
}

/// The session's dirty flag, which batches changes into one delayed save.
pub struct SessionFlags {
    /// Whether the session has changes that are not saved yet.
    pub is_dirty: bool,
}

impl SessionFlags {
    /// A session with nothing to save.
    pub fn new() -> (r: SessionFlags)
        ensures
            !r.is_dirty,
    {
        SessionFlags { is_dirty: false }
    }

    /// Notes a change. Returns whether to schedule the delayed save: only
    /// the change that makes a clean session dirty schedules one.
    pub fn mark_dirty(&mut self) -> (schedule_save: bool)
        ensures
            final(self).is_dirty,
            schedule_save == !old(self).is_dirty,
    {
        let schedule = !self.is_dirty;
        self.is_dirty = true;
        schedule
    }

    /// A save starts: the session counts as clean from here on.
    pub fn begin_save(&mut self)
        ensures
            !final(self).is_dirty,
    {
        self.is_dirty = false;
    }
}

} // verus!
