//! Outcome classification for the two filesystem effects of the pipeline:
//! materializing a destination directory and copying a file. The caller
//! performs the effect and reports what it observed; these functions turn the
//! observations into the outcome record for the status line, and pin down
//! the non-destructive policy: an existing destination is always skipped,
//! never overwritten, and an existing directory is never an error.

use vstd::prelude::*;

verus! {

/// The outcome of materializing one destination directory.
pub enum DirOutcome {
    Created,
    AlreadyExists,
    Failed(String),
}

/// The outcome of one attempted file transfer.
pub enum TransferOutcome {
    Copied,
    SkippedAlreadyExists,
    Failed(String),
}

/// The outcome of directory materialization: a path that already exists is
/// reported as `AlreadyExists` and never as a failure, whatever the creation
/// attempt would have returned; otherwise the reported creation error, if
/// any, decides.
pub fn dir_outcome(existed: bool, creation_error: Option<String>) -> (r: DirOutcome)
    ensures
        existed ==> r is AlreadyExists,
        !existed ==> match creation_error {
            None => r is Created,
            Some(e) => r matches DirOutcome::Failed(m) && m@ == e@,
        },
{
    if existed {
        DirOutcome::AlreadyExists
    } else {
        match creation_error {
            None => DirOutcome::Created,
            Some(e) => DirOutcome::Failed(e),
        }
    }
}

/// Whether a transfer copies: only when nothing exists at the destination.
pub open spec fn spec_should_copy(dest_exists: bool) -> bool {
    !dest_exists
}

/// Whether the transfer may copy: only when nothing exists at the
/// destination path — the pipeline never overwrites, and it never touches
/// the source.
pub fn should_copy(dest_exists: bool) -> (r: bool)
    ensures
        r == spec_should_copy(dest_exists),
{
    !dest_exists
}

/// Law: one run is idempotent over the destination tree. A run that copies a
/// file adds its planned path to the tree; a second run over an unchanged
/// source plans the same path, finds it present, does not copy, and so leaves
/// the tree exactly as the first run left it.
pub proof fn lemma_second_run_is_noop(tree: Set<Seq<char>>, planned: Seq<char>)
    ensures
        tree.insert(planned).contains(planned),
        !spec_should_copy(tree.insert(planned).contains(planned)),
        tree.insert(planned).insert(planned) =~= tree.insert(planned),
{
}

/// The outcome of a file transfer: a destination that already exists is
/// skipped — never overwritten — whatever the copy would have returned;
/// otherwise the reported copy error, if any, decides.
pub fn transfer_outcome(dest_exists: bool, copy_error: Option<String>) -> (r: TransferOutcome)
    ensures
        dest_exists ==> r is SkippedAlreadyExists,
        !dest_exists ==> match copy_error {
            None => r is Copied,
            Some(e) => r matches TransferOutcome::Failed(m) && m@ == e@,
        },
{
    if dest_exists {
        TransferOutcome::SkippedAlreadyExists
    } else {
        match copy_error {
            None => TransferOutcome::Copied,
            Some(e) => TransferOutcome::Failed(e),
        }
    }
}

} // verus!
