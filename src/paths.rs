//! The checks made before a backup runs, and how a failed one is described.
use vstd::prelude::*;

verus! {

/// Why the two folders of a backup cannot be used.
#[derive(PartialEq, Eq, Structural, Clone, Copy, Debug)]
pub enum PathError {
    /// One of the two paths is empty.
    EmptyPath,
    /// The folder to back up does not exist.
    MissingSource,
    /// The folder to save backups in does not exist.
    MissingDestination,
}

impl PathError {
    pub open spec fn text(self) -> Seq<char> {
        match self {
            PathError::EmptyPath => "Paths cannot be empty"@,
            PathError::MissingSource => "Backup path does not exist"@,
            PathError::MissingDestination => "Save path does not exist"@,
        }
    }

    /// What the error says to the user.
    pub fn message(&self) -> (r: &'static str)
        ensures
            r@ == self.text(),
    {
        proof {
            reveal_strlit("Paths cannot be empty");
            reveal_strlit("Backup path does not exist");
            reveal_strlit("Save path does not exist");
        }
        match self {
            PathError::EmptyPath => "Paths cannot be empty",
            PathError::MissingSource => "Backup path does not exist",
            PathError::MissingDestination => "Save path does not exist",
        }
    }
}

/// Checks the folder to back up and the folder to save in, given whether each
/// exists: both must be named, then the first must exist, then the second.
pub fn validate_paths(backup_path: &str, save_path: &str, backup_exists: bool, save_exists: bool) -> (r: Result<(), PathError>)
    ensures
        (backup_path@.len() == 0 || save_path@.len() == 0) <==> r == Err::<(), PathError>(PathError::EmptyPath),
        r == Err::<(), PathError>(PathError::MissingSource) <==> (backup_path@.len() > 0 && save_path@.len() > 0 && !backup_exists),
        r == Err::<(), PathError>(PathError::MissingDestination) <==> (backup_path@.len() > 0 && save_path@.len() > 0 && backup_exists && !save_exists),
        r is Ok <==> (backup_path@.len() > 0 && save_path@.len() > 0 && backup_exists && save_exists),
{
    if backup_path.unicode_len() == 0 || save_path.unicode_len() == 0 {
        return Err(PathError::EmptyPath);
    }
    if !backup_exists {
        return Err(PathError::MissingSource);
    }
    if !save_exists {
        return Err(PathError::MissingDestination);
    }
    Ok(())
}

/// Whether a backup cycle may be started: none runs and both folders check out.
pub fn can_start(running: bool, paths: &Result<(), PathError>) -> (r: bool)
    ensures
        r == (!running && paths is Ok),
{
    !running && paths.is_ok()
}

/// The class of a failed copy.
#[derive(PartialEq, Eq, Structural, Clone, Copy, Debug)]
pub enum FailureKind {
    PermissionDenied,
    NotFound,
    AlreadyExists,
    InvalidInput,
    Other,
}

impl FailureKind {
    pub open spec fn text(self) -> Seq<char> {
        match self {
            FailureKind::PermissionDenied => "Permission denied"@,
            FailureKind::NotFound => "File or directory not found"@,
            FailureKind::AlreadyExists => "Target file already exists"@,
            FailureKind::InvalidInput => "Invalid path"@,
            FailureKind::Other => "Unknown error"@,
        }
    }

    /// What the class says to the user.
    pub fn describe(&self) -> (r: &'static str)
        ensures
            r@ == self.text(),
    {
        proof {
            reveal_strlit("Permission denied");
            reveal_strlit("File or directory not found");
            reveal_strlit("Target file already exists");
            reveal_strlit("Invalid path");
            reveal_strlit("Unknown error");
        }
        match self {
            FailureKind::PermissionDenied => "Permission denied",
            FailureKind::NotFound => "File or directory not found",
            FailureKind::AlreadyExists => "Target file already exists",
            FailureKind::InvalidInput => "Invalid path",
            FailureKind::Other => "Unknown error",
        }
    }
}

/// The log text of a failed copy: its class, then the details.
pub open spec fn failure_text_of(kind: FailureKind, detail: Seq<char>) -> Seq<char> {
    "Backup failed: "@ + kind.text() + " - "@ + detail
}

/// The log text of a failed copy of class `kind` with the details `detail`.
pub fn failure_text(kind: FailureKind, detail: &str) -> (r: String)
    ensures
        r@ == failure_text_of(kind, detail@),
{
    proof {
        reveal_strlit("Backup failed: ");
        reveal_strlit(" - ");
    }
    let mut out = String::from_str("Backup failed: ");
    out.append(kind.describe());
    out.append(" - ");
    out.append(detail);
    proof {
        assert(out@ =~= failure_text_of(kind, detail@));
    }
    out
}

} // verus!
