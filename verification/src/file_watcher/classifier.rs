//! Decides which raw notifications can stand for a newly created file.

use vstd::prelude::*;

verus! {

/// What a creation notification says was created.
#[derive(Clone, Copy, Debug, PartialEq, Eq, Structural)]
pub enum CreateKind {
    /// The source does not know.
    Any,
    /// A file.
    File,
    /// A folder.
    Folder,
    /// Something else.
    Other,
}

/// The kind of change a raw notification reports.
#[derive(Clone, Copy, Debug, PartialEq, Eq, Structural)]
pub enum ChangeKind {
    /// Unknown or unsupported change.
    Any,
    /// Something was opened, read or closed.
    Access,
    /// Something was created.
    Create(CreateKind),
    /// Content, name or metadata changed.
    Modify,
    /// Something was removed.
    Remove,
    /// None of the above.
    Other,
}

/// Whether a notification of this kind can announce a new file.
///
/// Every creation kind is let through, the ambiguous ones too: some platforms
/// report nothing more precise, and what was created is settled afterwards by
/// looking at the path itself. Every other kind is rejected.
pub fn is_create_file_event(kind: &ChangeKind) -> (accepted: bool)
    ensures
        accepted == (*kind is Create),
{
    match kind {
        ChangeKind::Create(CreateKind::File) => true,
        ChangeKind::Create(CreateKind::Any) => true,
        ChangeKind::Modify => false,
        ChangeKind::Remove => false,
        ChangeKind::Access => false,
        ChangeKind::Other => false,
        ChangeKind::Any => false,
        ChangeKind::Create(_) => true,
    }
}

} // verus!
