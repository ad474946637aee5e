//! Temporary files that clean up after themselves, over UTF-8 paths.
//!
//! A temporary file is created under a random name, in a loop that retries
//! when the name is taken, and is then owned by a handle. The handle stands
//! for the duty to delete the file: it is given up by closing, persisting or
//! keeping the file, and every such step either discharges the duty or hands
//! the handle back.
//!
//! The handles have no destructor. A handle that is let go without any of
//! these steps leaves its file behind; the step for a handle that nothing
//! else is done with is [`TempPath::discard`], and a caller that wants it
//! taken at the end of a scope wraps the handle in a type of its own that
//! takes it there.
//!
//! The file system itself stays outside this crate, behind [`Platform`].
//! What is proved here is what the crate does around it: how names are
//! built, how often and when creation is retried, which error a caller sees,
//! and what becomes of a handle in every outcome.

pub mod error;
pub mod file;
pub mod path;
pub mod util;

pub use crate::error::{Error, ErrorKind};
pub use crate::file::platform::{OpenOptions, Platform};
pub use crate::file::{
    tempfile, tempfile_in, NamedTempFile, PathPersistError, PersistError, TempPath,
};

use vstd::prelude::*;

verus! {

/// How many names are tried before creation gives up, when names are random.
pub const NUM_RETRIES: u32 = 0x8000_0000;

/// How many random characters a default name holds.
pub const NUM_RAND_CHARS: usize = 6;

} // verus!
