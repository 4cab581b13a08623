//! A minimal temporary-file utility, verified with Verus.
//!
//! The crate models a temporary file's lifecycle: a builder composes the
//! target path, a handle owns the path while the file is open, an explicit
//! `close` yields a closed handle that can later be reopened, and discarding
//! a handle (in either state) obliges the surrounding program to delete the
//! file at the bound path.

mod handle;
mod name;
mod path;

pub use handle::ClosedTempFile;
pub use handle::DeletionObligation;
pub use handle::FsError;
pub use handle::TempFile;
pub use handle::TempFileBuilder;
pub use name::create_tmp_file_name;
pub use name::is_lower_hex_char;
pub use path::PathModel;
pub use path::TempPath;
pub use path::extension_of;
pub use path::ext_sep;
pub use path::last_dot_from;
pub use path::lemma_builder_composition;
pub use path::lemma_last_dot_from_at;
pub use path::lemma_last_dot_from_props;
pub use path::lemma_with_extension_splits;
pub use path::set_extension_spec;
pub use path::set_file_name_spec;
pub use path::set_parent_spec;
pub use path::stem_of;
pub use path::with_extension_name;
