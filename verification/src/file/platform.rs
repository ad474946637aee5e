//! What this crate asks of the file system.
//!
//! Every operation here must be indivisible towards other processes that
//! perform the same operation: that is the ground the retry loop and the
//! handles stand on. Nothing of it can be proved in this crate, so the trait
//! promises nothing. Contracts elsewhere speak of an operation only through
//! the answers it may give, with the relations defined below.

use vstd::prelude::*;

use crate::error::Error;

verus! {

/// How a named temporary file is to be opened.
#[derive(Clone, Copy, Debug, PartialEq, Eq, Structural)]
pub struct OpenOptions {
    /// Whether writes go to the end of the file.
    pub append: bool,
    /// The permission bits of the new file, where the platform has them and
    /// the caller chose them.
    pub mode: Option<u32>,
}

impl OpenOptions {
    /// The options of a plain temporary file: no appending, and the
    /// permission bits that the platform gives by default.
    pub fn new() -> (r: OpenOptions)
        ensures
            r == (OpenOptions { append: false, mode: None }),
    {
        OpenOptions { append: false, mode: None }
    }
}

/// The file system operations that temporary files are built from.
pub trait Platform {
    /// An open file.
    type File;

    /// The directory that the operating system offers for temporary files.
    fn temp_dir(&self) -> std::path::PathBuf;

    /// The directory that relative paths are resolved against right now.
    fn current_dir(&self) -> Result<std::path::PathBuf, Error>;

    /// Opens a new, empty, writable file in `dir` that has no name, or
    /// whose name is gone when the call returns.
    fn create(&self, dir: &str) -> Result<Self::File, Error>;

    /// Creates and opens the file at `path`. Where an object exists at
    /// `path` already, fails with a collision and leaves that object alone.
    fn create_named(&self, path: &str, options: &OpenOptions) -> Result<Self::File, Error>;

    /// Makes the file at `old_path` appear at `new_path` and no longer at
    /// `old_path`. With `overwrite`, replaces in one step what is at
    /// `new_path`; without, fails if anything is there.
    fn persist(&self, old_path: &str, new_path: &str, overwrite: bool) -> Result<(), Error>;

    /// Turns the file at `path` into one that stays when its handles close.
    fn keep(&self, path: &str) -> Result<(), Error>;

    /// Opens the object behind `file` once more. `path` is where it was
    /// created; an object that took its place there since is not the one.
    fn reopen(&self, file: &Self::File, path: &str) -> Result<Self::File, Error>;

    /// Deletes the file at `path`.
    fn remove_file(&self, path: &str) -> Result<(), Error>;
}

/// Whether `Platform::temp_dir` may return `outcome`.
pub open spec fn offers_temp_dir<P: Platform>(platform: &P, outcome: std::path::PathBuf) -> bool {
    call_ensures(P::temp_dir, (platform,), outcome)
}

/// Whether `Platform::current_dir` may return `outcome`.
pub open spec fn offers_current_dir<P: Platform>(
    platform: &P,
    outcome: Result<std::path::PathBuf, Error>,
) -> bool {
    call_ensures(P::current_dir, (platform,), outcome)
}

/// Whether `Platform::create`, asked for a file in the directory `dir`, may
/// return `outcome`.
pub open spec fn creates<P: Platform>(
    platform: &P,
    dir: Seq<char>,
    outcome: Result<P::File, Error>,
) -> bool {
    exists|d: &str| d@ == dir && #[trigger] call_ensures(P::create, (platform, d), outcome)
}

/// Whether `Platform::create_named`, asked for the file `path` with
/// `options`, may return `outcome`.
pub open spec fn creates_named<P: Platform>(
    platform: &P,
    path: Seq<char>,
    options: OpenOptions,
    outcome: Result<P::File, Error>,
) -> bool {
    exists|p: &str|
        p@ == path && #[trigger] call_ensures(P::create_named, (platform, p, &options), outcome)
}

/// Whether `Platform::persist`, asked to move `old_path` to `new_path`, may
/// return `outcome`.
pub open spec fn persists<P: Platform>(
    platform: &P,
    old_path: Seq<char>,
    new_path: Seq<char>,
    overwrite: bool,
    outcome: Result<(), Error>,
) -> bool {
    exists|p: &str, q: &str|
        p@ == old_path && q@ == new_path && #[trigger] call_ensures(
            P::persist,
            (platform, p, q, overwrite),
            outcome,
        )
}

/// Whether `Platform::keep`, asked to keep `path`, may return `outcome`.
pub open spec fn keeps<P: Platform>(
    platform: &P,
    path: Seq<char>,
    outcome: Result<(), Error>,
) -> bool {
    exists|p: &str| p@ == path && #[trigger] call_ensures(P::keep, (platform, p), outcome)
}

/// Whether `Platform::reopen`, asked to reopen `file` created at `path`, may
/// return `outcome`.
pub open spec fn reopens<P: Platform>(
    platform: &P,
    file: P::File,
    path: Seq<char>,
    outcome: Result<P::File, Error>,
) -> bool {
    exists|p: &str| p@ == path && #[trigger] call_ensures(P::reopen, (platform, &file, p), outcome)
}

/// Whether `Platform::remove_file`, asked to delete `path`, may return
/// `outcome`.
pub open spec fn removes<P: Platform>(
    platform: &P,
    path: Seq<char>,
    outcome: Result<(), Error>,
) -> bool {
    exists|p: &str| p@ == path && #[trigger] call_ensures(P::remove_file, (platform, p), outcome)
}

} // verus!
