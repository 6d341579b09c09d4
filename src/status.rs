use vstd::prelude::*;

verus! {

/// The status flag of an entry that is staged as new.
pub const STATUS_INDEX_NEW: u32 = 1;

/// The status flag of an entry that is staged as modified.
pub const STATUS_INDEX_MODIFIED: u32 = 2;

/// The status flag of an entry that is new in the working tree.
pub const STATUS_WT_NEW: u32 = 128;

/// The status flag of an entry that is modified in the working tree.
pub const STATUS_WT_MODIFIED: u32 = 256;

/// An entry whose status flags say that it is modified or new, staged or
/// not.
pub open spec fn entry_changed(flags: u32) -> bool {
    ||| flags & STATUS_WT_MODIFIED != 0
    ||| flags & STATUS_WT_NEW != 0
    ||| flags & STATUS_INDEX_MODIFIED != 0
    ||| flags & STATUS_INDEX_NEW != 0
}

/// A status listing with at least one modified or new entry.
pub open spec fn any_changed(entries: Seq<u32>) -> bool {
    exists|i: int| 0 <= i < entries.len() && #[trigger] entry_changed(entries[i])
}

/// Whether one entry's status flags mark it as modified or new, in the
/// working tree or in the stage.
pub fn is_changed_entry(flags: u32) -> (r: bool)
    ensures
        r == entry_changed(flags),
{
    flags & STATUS_WT_MODIFIED != 0 || flags & STATUS_WT_NEW != 0 || flags & STATUS_INDEX_MODIFIED
        != 0 || flags & STATUS_INDEX_NEW != 0
}

/// Whether a working tree, given as the status flags of its entries, holds
/// anything to commit. Staged and unstaged entries are not told apart.
pub fn has_changes_in(entries: &Vec<u32>) -> (r: bool)
    ensures
        r == any_changed(entries@),
{
    let mut i: usize = 0;
    while i < entries.len()
        invariant
            0 <= i <= entries@.len(),
            forall|j: int| 0 <= j < i ==> !#[trigger] entry_changed(entries@[j]),
        decreases entries@.len() - i,
    {
        if is_changed_entry(entries[i]) {
            return true;
        }
        i = i + 1;
    }
    false
}

} // verus!
