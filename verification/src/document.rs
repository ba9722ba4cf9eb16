//! The state of one text document: its file, and the modified, loading and
//! busy flags that the editor keeps consistent with the buffer.

use vstd::prelude::*;

verus! {

/// Why a document operation was refused.
#[derive(Debug, Clone, Copy, PartialEq, Eq, Structural)]
pub enum DocumentOpError {
    /// The document is already loading or saving.
    Busy,
    /// The document has no file yet.
    Draft,
}

/// How changes are discarded: a draft's buffer is emptied in place, a saved
/// document is loaded again from its file.
#[derive(Debug, Clone, Copy, PartialEq, Eq, Structural)]
pub enum DiscardAction {
    ClearBuffer,
    Reload,
}

/// The buffer's colour schemes, tried in this order for the current theme:
/// the toolkit's own scheme first, then the classic fallback.
pub fn style_scheme_candidates(is_dark: bool) -> (r: (&'static str, &'static str))
    ensures
        is_dark ==> r.0@ == "Adwaita-dark"@ && r.1@ == "classic-dark"@,
        !is_dark ==> r.0@ == "Adwaita"@ && r.1@ == "classic"@,
{
    if is_dark {
        ("Adwaita-dark", "classic-dark")
    } else {
        ("Adwaita", "classic")
    }
}

/// A document: an optional backing file and the buffer's bookkeeping flags.
pub struct Document {
    /// The identifier of the backing file; `None` for a draft.
    pub uri: Option<String>,
    /// The buffer's raw modified bit.
    pub modified_flag: bool,
    /// Whether the buffer is being filled from the file right now.
    pub loading: bool,
    /// Whether a load or save is in flight.
    pub busy: bool,
}

impl Document {
    /// A draft document has no backing file.
    pub open spec fn spec_is_draft(&self) -> bool {
        self.uri is None
    }

    /// A document counts as modified only when it is not loading.
    pub open spec fn spec_is_modified(&self) -> bool {
        self.modified_flag && !self.loading
    }

    /// A new, empty draft.
    pub fn new() -> (r: Document)
        ensures
            r == (Document {
                uri: None,
                modified_flag: false,
                loading: false,
                busy: false,
            }),
    {
        Document { uri: None, modified_flag: false, loading: false, busy: false }
    }

    /// A document backed by the file at `uri`, not yet loaded.
    pub fn for_uri(uri: String) -> (r: Document)
        ensures
            r == (Document {
                uri: Some(uri),
                modified_flag: false,
                loading: false,
                busy: false,
            }),
    {
        Document { uri: Some(uri), modified_flag: false, loading: false, busy: false }
    }

    pub fn is_draft(&self) -> (r: bool)
        ensures
            r == self.spec_is_draft(),
    {
        self.uri.is_none()
    }

    pub fn is_modified(&self) -> (r: bool)
        ensures
            r == self.spec_is_modified(),
    {
        self.modified_flag && !self.loading
    }

    /// A document may be dropped without asking when it is an unmodified
    /// draft.
    pub fn is_safely_discardable(&self) -> (r: bool)
        ensures
            r == (self.spec_is_draft() && !self.spec_is_modified()),
    {
        self.is_draft() && !self.is_modified()
    }

    /// Effects of the user editing the buffer: the title is recomputed only
    /// for drafts, and edits made while loading do not count as changes.
    pub fn edit_effects(&self) -> (r: (bool, bool))
        ensures
            r.0 == self.spec_is_draft(),
            r.1 == !self.loading,
    {
        (self.is_draft(), !self.loading)
    }

    /// Starts loading from the backing file. Refused while busy or for a
    /// draft; otherwise the document is busy until `finish_load`.
    pub fn begin_load(&mut self) -> (r: Result<(), DocumentOpError>)
        ensures
            old(self).busy ==> r == Err::<(), DocumentOpError>(DocumentOpError::Busy)
                && *final(self) == *old(self),
            !old(self).busy && old(self).spec_is_draft() ==> r == Err::<(), DocumentOpError>(
                DocumentOpError::Draft,
            ) && *final(self) == *old(self),
            !old(self).busy && !old(self).spec_is_draft() ==> r == Ok::<(), DocumentOpError>(())
                && *final(self) == (Document { busy: true, ..*old(self) }),
    {
        if self.busy {
            Err(DocumentOpError::Busy)
        } else if self.is_draft() {
            Err(DocumentOpError::Draft)
        } else {
            self.busy = true;
            Ok(())
        }
    }

    /// The load finished (well or not): the document is no longer busy.
    pub fn finish_load(&mut self)
        ensures
            *final(self) == (Document { busy: false, ..*old(self) }),
    {
        self.busy = false;
    }

    /// Starts saving to the backing file, under the same guards as loading.
    pub fn begin_save(&mut self) -> (r: Result<(), DocumentOpError>)
        ensures
            old(self).busy ==> r == Err::<(), DocumentOpError>(DocumentOpError::Busy)
                && *final(self) == *old(self),
            !old(self).busy && old(self).spec_is_draft() ==> r == Err::<(), DocumentOpError>(
                DocumentOpError::Draft,
            ) && *final(self) == *old(self),
            !old(self).busy && !old(self).spec_is_draft() ==> r == Ok::<(), DocumentOpError>(())
                && *final(self) == (Document { busy: true, ..*old(self) }),
    {
        if self.busy {
            Err(DocumentOpError::Busy)
        } else if self.is_draft() {
            Err(DocumentOpError::Draft)
        } else {
            self.busy = true;
            Ok(())
        }
    }

    /// Starts saving to the file at `uri`, which becomes the backing file.
    /// Refused only while busy.
    pub fn begin_save_as(&mut self, uri: String) -> (r: Result<(), DocumentOpError>)
        ensures
            old(self).busy ==> r == Err::<(), DocumentOpError>(DocumentOpError::Busy)
                && *final(self) == *old(self),
            !old(self).busy ==> r == Ok::<(), DocumentOpError>(()) && *final(self) == (
            Document { uri: Some(uri), busy: true, ..*old(self) }),
    {
        if self.busy {
            Err(DocumentOpError::Busy)
        } else {
            self.uri = Some(uri);
            self.busy = true;
            Ok(())
        }
    }

    /// The save finished well: the document is clean and no longer busy.
    pub fn finish_save(&mut self)
        ensures
            *final(self) == (Document { modified_flag: false, busy: false, ..*old(self) }),
    {
        self.modified_flag = false;
        self.busy = false;
    }

    /// Starts discarding unsaved changes. Refused while busy. A draft's
    /// buffer is to be emptied and is clean at once; a saved document is to
    /// be loaded again and is busy until `finish_load`.
    pub fn begin_discard(&mut self) -> (r: Result<DiscardAction, DocumentOpError>)
        ensures
            old(self).busy ==> r == Err::<DiscardAction, DocumentOpError>(DocumentOpError::Busy)
                && *final(self) == *old(self),
            !old(self).busy && old(self).spec_is_draft() ==> r == Ok::<
                DiscardAction,
                DocumentOpError,
            >(DiscardAction::ClearBuffer) && *final(self) == (Document {
                modified_flag: false,
                ..*old(self)
            }),
            !old(self).busy && !old(self).spec_is_draft() ==> r == Ok::<
                DiscardAction,
                DocumentOpError,
            >(DiscardAction::Reload) && *final(self) == (Document {
                busy: true,
                ..*old(self)
            }),
    {
        if self.busy {
            Err(DocumentOpError::Busy)
        } else if self.is_draft() {
            self.modified_flag = false;
            Ok(DiscardAction::ClearBuffer)
        } else {
            self.busy = true;
            Ok(DiscardAction::Reload)
        }
    }
}

} // verus!
