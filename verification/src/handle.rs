//! The temporary-file lifecycle: a builder that composes the target path, an
//! open handle, its closed form, and the deletion obligation that both carry.
//!
//! The crate itself performs no filesystem calls; the surrounding program
//! does and reports each attempt's outcome. The functions here decide what
//! each outcome means: which handle exists afterwards, bound to which path,
//! and which error is surfaced. The obligation to delete the file is a
//! move-only value, so at any moment exactly one live owner carries it, and
//! the program discharges it (removes the file, tolerating an already-absent
//! file) when the final owning handle is discarded.

use vstd::prelude::*;
use crate::name::create_tmp_file_name;
use crate::name::is_lower_hex_char;
use crate::path::PathModel;
use crate::path::TempPath;
use crate::path::set_extension_spec;
use crate::path::set_file_name_spec;
use crate::path::set_parent_spec;

verus! {

/// A filesystem failure, surfaced verbatim from the underlying call: the
/// target path was already occupied on create, the file vanished before a
/// reopen, permission was denied, or some other input/output fault.
#[derive(Clone, Copy, Debug, PartialEq, Eq, Structural)]
pub enum FsError {
    AlreadyExists,
    NotFound,
    PermissionDenied,
    Other,
}

/// The guarantee that the file at the bound path will be deleted exactly
/// once. The value is move-only and has no public constructor: it comes into
/// being only when a file is created, travels with the handle through close
/// and reopen, and never gains a second live owner.
pub struct DeletionObligation {
    path: TempPath,
}

impl DeletionObligation {
    /// The path the obligation is bound to.
    pub closed spec fn path_model(&self) -> PathModel {
        self.path@
    }

    /// The bound path, to delete at when the obligation is discharged.
    pub fn path(&self) -> (p: &TempPath)
        ensures
            p@ == self.path_model(),
    {
        &self.path
    }
}

/// A temporary file in the open state: the deletion obligation for its path,
/// while the surrounding program holds the live file resource.
pub struct TempFile {
    obligation: DeletionObligation,
}

/// A temporary file in the closed state: no live file resource, but the same
/// path and the same deletion obligation, ready to be reopened.
pub struct ClosedTempFile {
    obligation: DeletionObligation,
}

impl TempFile {
    /// The path this handle is bound to.
    pub closed spec fn path_model(&self) -> PathModel {
        self.obligation.path_model()
    }

    /// The open handle for a file the program attempted to create at `path`
    /// in exclusive-create mode. A successful attempt yields the handle,
    /// bound to `path`, carrying a fresh deletion obligation; a failed one
    /// yields the attempt's error verbatim and no handle, so no partial
    /// state exists.
    pub fn from_path(path: TempPath, created: Result<(), FsError>) -> (r: Result<
        TempFile,
        FsError,
    >)
        ensures
            r is Ok <==> created is Ok,
            r is Ok ==> r->Ok_0.path_model() == path@,
            r is Err ==> r->Err_0 == created->Err_0,
    {
        match created {
            Ok(()) => Ok(TempFile { obligation: DeletionObligation { path } }),
            Err(e) => Err(e),
        }
    }

    /// Closes the handle: a consuming transition that never fails. The live
    /// file resource is released by the surrounding program; the deletion
    /// obligation moves unchanged into the closed form, still bound to the
    /// same path.
    pub fn close(self) -> (c: ClosedTempFile)
        ensures
            c.path_model() == self.path_model(),
    {
        ClosedTempFile { obligation: self.obligation }
    }

    /// The bound path; it never changes after creation.
    pub fn file_path(&self) -> (p: &TempPath)
        ensures
            p@ == self.path_model(),
    {
        self.obligation.path()
    }
}

impl ClosedTempFile {
    /// The path this handle is bound to.
    pub closed spec fn path_model(&self) -> PathModel {
        self.obligation.path_model()
    }

    /// Reopens the closed handle after the program attempted to open the
    /// file at the bound path for reading. A successful attempt yields an
    /// open handle bound to the same path, with the deletion obligation
    /// transferred; a failed one (the file vanished externally, or the
    /// resource could not be acquired) surfaces the attempt's error verbatim
    /// and consumes the handle, leaving the obligation to be discharged as a
    /// best-effort no-op.
    pub fn reopen(self, opened: Result<(), FsError>) -> (r: Result<TempFile, FsError>)
        ensures
            r is Ok <==> opened is Ok,
            r is Ok ==> r->Ok_0.path_model() == self.path_model(),
            r is Err ==> r->Err_0 == opened->Err_0,
    {
        match opened {
            Ok(()) => Ok(TempFile { obligation: self.obligation }),
            Err(e) => Err(e),
        }
    }

    /// The bound path; it never changes after creation.
    pub fn file_path(&self) -> (p: &TempPath)
        ensures
            p@ == self.path_model(),
    {
        self.obligation.path()
    }
}

/// Composes the target path for a new temporary file: by default the given
/// temporary directory plus a freshly generated name, with any component
/// overridable before the file is created. Options apply in any order,
/// last write wins per component.
pub struct TempFileBuilder {
    path: TempPath,
}

impl View for TempFileBuilder {
    type V = PathModel;

    closed spec fn view(&self) -> PathModel {
        self.path@
    }
}

impl TempFileBuilder {
    /// A builder whose path starts as the given temporary directory plus a
    /// fresh name: the prefix `temp` followed by 32 lowercase-hexadecimal
    /// digits.
    pub fn new(temp_dir: &str) -> (b: TempFileBuilder)
        ensures
            b@.dir == temp_dir@,
            b@.name.len() == 36,
            b@.name.subrange(0, 4) == "temp"@,
            forall|i: int| 4 <= i < 36 ==> is_lower_hex_char(#[trigger] b@.name[i]),
    {
        proof {
            reveal_strlit("temp");
        }
        let file_name = create_tmp_file_name("temp");
        TempFileBuilder { path: TempPath::new(temp_dir, file_name.as_str()) }
    }

    /// Sets the full target path directly.
    pub fn file_path(&mut self, file_path: TempPath)
        ensures
            final(self)@ == file_path@,
    {
        self.path = file_path;
    }

    /// Replaces the directory component only, keeping the current file name.
    pub fn with_parent_dir(&mut self, parent_dir: &str)
        ensures
            final(self)@ == set_parent_spec(old(self)@, parent_dir@),
    {
        self.path.set_parent_dir(parent_dir);
    }

    /// Replaces the file-name component only.
    pub fn with_file_name(&mut self, file_name: &str)
        ensures
            final(self)@ == set_file_name_spec(old(self)@, file_name@),
    {
        self.path.set_file_name(file_name);
    }

    /// Replaces the file name's extension only.
    pub fn with_extension(&mut self, ext: &str)
        ensures
            final(self)@ == set_extension_spec(old(self)@, ext@),
    {
        self.path.set_extension(ext);
    }

    /// The currently resolved target path.
    pub fn path(&self) -> (p: &TempPath)
        ensures
            p@ == self@,
    {
        &self.path
    }

    /// Finishes the builder once the program has attempted to create the
    /// file at the resolved path in exclusive-create mode, with the same
    /// meaning as `TempFile::from_path` on that path.
    pub fn build(self, created: Result<(), FsError>) -> (r: Result<TempFile, FsError>)
        ensures
            r is Ok <==> created is Ok,
            r is Ok ==> r->Ok_0.path_model() == self@,
            r is Err ==> r->Err_0 == created->Err_0,
    {
        TempFile::from_path(self.path, created)
    }
}

} // verus!
