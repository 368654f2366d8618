//! Path validation for file reads and writes.
//!
//! A candidate path is classified against policy before any I/O is attempted:
//! cheap, local checks (absoluteness) come first, then the checks that need
//! filesystem observations.  The host probes the filesystem and passes what it
//! saw in as plain values; the classification itself is pure and total.

use vstd::prelude::*;

verus! {

/// Largest file or content size the editor will read or write, in bytes
/// (a 10 MiB ceiling).
pub const MAX_FILE_SIZE: u64 = 10 * 1024 * 1024;

/// Why a candidate path (or the content bound for it) was rejected.
#[derive(Clone, Copy, Debug, PartialEq, Eq, Structural)]
pub enum PathError {
    /// The path is not absolute.
    NotAbsolute,
    /// Canonicalization failed (broken symlink, nonexistent ancestor, ...).
    InvalidPath,
    /// The canonical path does not exist.
    NotFound,
    /// The path exists but is not a regular file.
    NotAFile,
    /// Opening the file for reading failed.
    Unreadable,
    /// The file or the content payload exceeds [`MAX_FILE_SIZE`].
    TooLarge,
    /// The directory that would contain the file does not exist.
    ParentMissing,
}

impl PathError {
    /// The message a read operation reports for this rejection.
    pub fn read_message(&self) -> (r: &'static str)
        ensures
            *self is NotAbsolute ==> r@ == "File path must be absolute"@,
            *self is InvalidPath ==> r@ == "Invalid path"@,
            *self is NotFound ==> r@ == "File does not exist"@,
            *self is NotAFile ==> r@ == "Path is not a file"@,
            *self is Unreadable ==> r@ == "File is not readable"@,
            *self is TooLarge ==> r@ == "File is too large (max 10MB)"@,
            *self is ParentMissing ==> r@ == "Parent directory does not exist"@,
    {
        match self {
            PathError::NotAbsolute => "File path must be absolute",
            PathError::InvalidPath => "Invalid path",
            PathError::NotFound => "File does not exist",
            PathError::NotAFile => "Path is not a file",
            PathError::Unreadable => "File is not readable",
            PathError::TooLarge => "File is too large (max 10MB)",
            PathError::ParentMissing => "Parent directory does not exist",
        }
    }

    /// The message a write operation reports for this rejection.  It differs
    /// from the read message only for the size ceiling, which on the write
    /// side speaks of the content payload.
    pub fn write_message(&self) -> (r: &'static str)
        ensures
            *self is NotAbsolute ==> r@ == "File path must be absolute"@,
            *self is InvalidPath ==> r@ == "Invalid path"@,
            *self is NotFound ==> r@ == "File does not exist"@,
            *self is NotAFile ==> r@ == "Path is not a file"@,
            *self is Unreadable ==> r@ == "File is not readable"@,
            *self is TooLarge ==> r@ == "Content is too large (max 10MB)"@,
            *self is ParentMissing ==> r@ == "Parent directory does not exist"@,
    {
        match self {
            PathError::TooLarge => "Content is too large (max 10MB)",
            _ => self.read_message(),
        }
    }
}

/// A path is absolute when it starts at the filesystem root.
pub open spec fn is_absolute_path(p: Seq<char>) -> bool {
    p.len() > 0 && p[0] == '/'
}

/// Decides absoluteness of a candidate path, the one check that needs no
/// filesystem access at all.
pub fn path_is_absolute(path: &str) -> (r: bool)
    ensures
        r == is_absolute_path(path@),
{
    if path.unicode_len() == 0 {
        false
    } else {
        path.get_char(0) == '/'
    }
}

/// The absoluteness gate alone: every operation applies it before touching
/// the filesystem, so a relative path is rejected with no I/O performed.
pub fn check_absolute(path: &str) -> (r: Result<(), PathError>)
    ensures
        r == (if is_absolute_path(path@) {
            Result::<(), PathError>::Ok(())
        } else {
            Result::<(), PathError>::Err(PathError::NotAbsolute)
        }),
{
    if path_is_absolute(path) {
        Ok(())
    } else {
        Err(PathError::NotAbsolute)
    }
}

/// What a filesystem probe of a canonicalized path observed.
#[derive(Clone, Copy, Debug, PartialEq, Eq, Structural)]
pub struct FileProbe {
    /// The canonical path exists.
    pub exists: bool,
    /// The canonical path is a regular file.
    pub is_file: bool,
    /// Opening the file for reading succeeded.
    pub readable: bool,
    /// The file's size in bytes.
    pub size: u64,
}

/// Classification of a path for reading.  `probe` is `None` when
/// canonicalization failed; otherwise it holds what the probe observed.
pub open spec fn read_verdict(path: Seq<char>, probe: Option<FileProbe>) -> Result<(), PathError> {
    if !is_absolute_path(path) {
        Err(PathError::NotAbsolute)
    } else {
        match probe {
            Option::None => Err(PathError::InvalidPath),
            Option::Some(f) => {
                if !f.exists {
                    Err(PathError::NotFound)
                } else if !f.is_file {
                    Err(PathError::NotAFile)
                } else if !f.readable {
                    Err(PathError::Unreadable)
                } else if f.size > MAX_FILE_SIZE {
                    Err(PathError::TooLarge)
                } else {
                    Ok(())
                }
            },
        }
    }
}

/// Validates a path for reading, mirroring the original check order:
/// absoluteness first, then the canonicalization outcome, then existence,
/// file-ness, readability, and finally the size ceiling.
pub fn validate_read(path: &str, probe: Option<FileProbe>) -> (r: Result<(), PathError>)
    ensures
        r == read_verdict(path@, probe),
{
    if !path_is_absolute(path) {
        return Err(PathError::NotAbsolute);
    }
    match probe {
        Option::None => Err(PathError::InvalidPath),
        Option::Some(f) => {
            if !f.exists {
                Err(PathError::NotFound)
            } else if !f.is_file {
                Err(PathError::NotAFile)
            } else if !f.readable {
                Err(PathError::Unreadable)
            } else if f.size > MAX_FILE_SIZE {
                Err(PathError::TooLarge)
            } else {
                Ok(())
            }
        },
    }
}

/// The absoluteness-and-canonicalization stage on its own: what the original
/// metadata probe returned to its callers.  On success the probe is handed
/// back for the operation-specific checks.
pub fn validate_file_path(path: &str, probe: Option<FileProbe>) -> (r: Result<FileProbe, PathError>)
    ensures
        !is_absolute_path(path@) ==> r == Result::<FileProbe, PathError>::Err(
            PathError::NotAbsolute,
        ),
        is_absolute_path(path@) && probe is None ==> r == Result::<FileProbe, PathError>::Err(
            PathError::InvalidPath,
        ),
        is_absolute_path(path@) && probe is Some ==> r == Result::<FileProbe, PathError>::Ok(
            probe->0,
        ),
{
    if !path_is_absolute(path) {
        return Err(PathError::NotAbsolute);
    }
    match probe {
        Option::None => Err(PathError::InvalidPath),
        Option::Some(f) => Ok(f),
    }
}

/// What a filesystem probe of a write target observed.  The write side
/// deliberately does not canonicalize, so that writing a new file at a
/// not-yet-existing path succeeds.
#[derive(Clone, Copy, Debug, PartialEq, Eq, Structural)]
pub struct WriteProbe {
    /// The target path exists.
    pub exists: bool,
    /// The target path is a regular file.
    pub is_file: bool,
    /// The path has a parent component at all.
    pub has_parent: bool,
    /// The parent directory exists (meaningful only when `has_parent`).
    pub parent_exists: bool,
}

/// Classification of a path for writing `content_len` bytes.
pub open spec fn write_verdict(path: Seq<char>, probe: WriteProbe, content_len: u64) -> Result<
    (),
    PathError,
> {
    if !is_absolute_path(path) {
        Err(PathError::NotAbsolute)
    } else if probe.exists && !probe.is_file {
        Err(PathError::NotAFile)
    } else if probe.has_parent && !probe.parent_exists {
        Err(PathError::ParentMissing)
    } else if content_len > MAX_FILE_SIZE {
        Err(PathError::TooLarge)
    } else {
        Ok(())
    }
}

/// Validates a path for writing, in the original order: absoluteness, then
/// "exists but is not a file", then the parent directory, then the content
/// size ceiling.
pub fn validate_write(path: &str, probe: WriteProbe, content_len: u64) -> (r: Result<
    (),
    PathError,
>)
    ensures
        r == write_verdict(path@, probe, content_len),
{
    if !path_is_absolute(path) {
        Err(PathError::NotAbsolute)
    } else if probe.exists && !probe.is_file {
        Err(PathError::NotAFile)
    } else if probe.has_parent && !probe.parent_exists {
        Err(PathError::ParentMissing)
    } else if content_len > MAX_FILE_SIZE {
        Err(PathError::TooLarge)
    } else {
        Ok(())
    }
}

/// A path that is not absolute is rejected with the absolute-path error by
/// both the read and the write classification, whatever the filesystem looks
/// like.
pub proof fn lemma_not_absolute_rejected(
    path: Seq<char>,
    read_probe: Option<FileProbe>,
    write_probe: WriteProbe,
    content_len: u64,
)
    requires
        !is_absolute_path(path),
    ensures
        read_verdict(path, read_probe) == Result::<(), PathError>::Err(PathError::NotAbsolute),
        write_verdict(path, write_probe, content_len) == Result::<(), PathError>::Err(
            PathError::NotAbsolute,
        ),
{
}

/// A file or content payload over the 10 MiB ceiling is rejected with the
/// size-limit error whenever the path passes every earlier check, for both
/// reading and writing.
pub proof fn lemma_oversize_rejected(
    path: Seq<char>,
    file: FileProbe,
    write_probe: WriteProbe,
    content_len: u64,
)
    requires
        is_absolute_path(path),
        file.exists,
        file.is_file,
        file.readable,
        file.size > MAX_FILE_SIZE,
        !(write_probe.exists && !write_probe.is_file),
        !(write_probe.has_parent && !write_probe.parent_exists),
        content_len > MAX_FILE_SIZE,
    ensures
        read_verdict(path, Some(file)) == Result::<(), PathError>::Err(PathError::TooLarge),
        write_verdict(path, write_probe, content_len) == Result::<(), PathError>::Err(
            PathError::TooLarge,
        ),
{
}

} // verus!
