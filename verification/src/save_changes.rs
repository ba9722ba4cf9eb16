//! The save-changes question asked before documents with unsaved changes
//! are closed, and what each answer does.

use vstd::prelude::*;

verus! {

/// The user's answer to the save-changes question.
#[derive(Debug, Clone, Copy, PartialEq, Eq, Structural)]
pub enum SaveChangesResponse {
    /// Keep everything open; the close is called off.
    Cancel,
    /// Close without saving.
    Discard,
    /// Save the checked documents, then close.
    Save,
}

/// How many entries are checked.
pub open spec fn count_true(s: Seq<bool>) -> int
    decreases s.len(),
{
    if s.len() == 0 {
        0
    } else {
        count_true(s.drop_last()) + if s.last() {
            1int
        } else {
            0int
        }
    }
}

/// The number of checked entries: the save button is enabled, and worded
/// for several documents, by this count.
pub fn checked_count(checked: &Vec<bool>) -> (r: usize)
    ensures
        r == count_true(checked@),
{
    let n = checked.len();
    let mut count: usize = 0;
    let mut i: usize = 0;
    while i < n
        invariant
            n == checked@.len(),
            i <= n,
            count == count_true(checked@.take(i as int)),
            count <= i,
        decreases n - i,
    {
        proof {
            assert(checked@.take(i + 1).drop_last() =~= checked@.take(i as int));
            assert(checked@.take(i + 1).last() == checked@[i as int]);
        }
        if checked[i] {
            count += 1;
        }
        i += 1;
    }
    proof {
        assert(checked@.take(n as int) =~= checked@);
    }
    count
}

/// What an answer does: whether the close goes ahead, and which documents
/// are saved first — exactly the checked ones, in order, when the answer is
/// to save.
pub fn save_changes_plan(response: SaveChangesResponse, checked: &Vec<bool>) -> (r: (
    bool,
    Vec<usize>,
))
    ensures
        response is Cancel ==> !r.0 && r.1@ == Seq::<usize>::empty(),
        response is Discard ==> r.0 && r.1@ == Seq::<usize>::empty(),
        response is Save ==> r.0 && {
            &&& forall|k: int| 0 <= k < r.1@.len() ==> r.1@[k] < checked@.len()
                && checked@[r.1@[k] as int]
            &&& forall|k1: int, k2: int| 0 <= k1 < k2 < r.1@.len() ==> r.1@[k1] < r.1@[k2]
            &&& forall|i: int| 0 <= i < checked@.len() && checked@[i] ==> r.1@.contains(i as usize)
        },
{
    match response {
        SaveChangesResponse::Cancel => (false, Vec::new()),
        SaveChangesResponse::Discard => (true, Vec::new()),
        SaveChangesResponse::Save => (true, crate::session::modified_indices(checked)),
    }
}

} // verus!
