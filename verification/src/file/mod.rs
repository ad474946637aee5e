//! Temporary files and the handles that own them.

pub mod lifecycle;
pub mod platform;

use vstd::prelude::*;
use vstd::string::StringExecFns;

use crate::error::{decorated, with_err_path, Error};
use crate::file::lifecycle::{Lifecycle, Step};
use crate::file::platform::{
    creates, creates_named, keeps, persists, removes, reopens, OpenOptions, Platform,
};
use crate::util::{
    create_helper, exhausted, is_candidate, is_resolution, is_run, is_temp_dir,
    lemma_run_under_wider_reply, reply_of, resolve, retry_budget_of, temp_dir, Attempt,
};
use crate::NUM_RAND_CHARS;

verus! {

/// The path of a temporary file, without an open file.
///
/// A `TempPath` stands for the duty to delete the file at its path. The
/// duty ends with [`close`](TempPath::close), a successful
/// [`persist`](TempPath::persist),
/// [`persist_noclobber`](TempPath::persist_noclobber) or
/// [`keep`](TempPath::keep), or with [`discard`](TempPath::discard). Each of
/// them takes the handle; those that can be tried again hand it back when
/// they fail. A handle cannot be copied, so no file is deleted on behalf of
/// two handles.
#[derive(Debug)]
pub struct TempPath {
    path: String,
}

impl View for TempPath {
    type V = Seq<char>;

    closed spec fn view(&self) -> Seq<char> {
        self.path@
    }
}

/// The failure to persist or keep a temporary file path: the cause, and the
/// handle, which still owns the file.
#[derive(Debug)]
pub struct PathPersistError {
    /// The cause of the failure.
    pub error: Error,
    /// The handle that could not be persisted.
    pub path: TempPath,
}

impl PathPersistError {
    /// The failure in words: that a temporary file path could not be
    /// persisted, and the message of the cause.
    pub fn to_string(&self) -> (r: String)
        ensures
            r@ == "failed to persist temporary file path: "@ + self.error@.message,
    {
        let mut text = String::from_str("failed to persist temporary file path: ");
        text.append(self.error.message());
        text
    }
}

impl From<PathPersistError> for Error {
    /// The cause of the failure; the handle is let go.
    fn from(error: PathPersistError) -> (r: Error) {
        error.error
    }
}

impl vstd::std_specs::convert::FromSpecImpl<PathPersistError> for Error {
    open spec fn obeys_from_spec() -> bool {
        true
    }

    open spec fn from_spec(v: PathPersistError) -> Error {
        v.error
    }
}

impl From<PathPersistError> for TempPath {
    /// The handle that could not be persisted; the cause is let go.
    fn from(error: PathPersistError) -> (r: TempPath) {
        error.path
    }
}

impl vstd::std_specs::convert::FromSpecImpl<PathPersistError> for TempPath {
    open spec fn obeys_from_spec() -> bool {
        true
    }

    open spec fn from_spec(v: PathPersistError) -> TempPath {
        v.path
    }
}

/// Where the file stands after an attempt to persist its path to
/// `new_path` that returned `r`.
pub open spec fn state_after_path_persist(
    new_path: Seq<char>,
    r: Result<(), PathPersistError>,
) -> Lifecycle {
    match r {
        Ok(_) => Lifecycle::Persisted(new_path),
        Err(e) => e.path.state(),
    }
}

/// Where the file stands after an attempt to keep its path that returned
/// `r`.
pub open spec fn state_after_path_keep(r: Result<String, PathPersistError>) -> Lifecycle {
    match r {
        Ok(path) => Lifecycle::Kept(path@),
        Err(e) => e.path.state(),
    }
}

impl TempPath {
    /// Where the file of this handle stands: detached, and owned.
    pub open spec fn state(self) -> Lifecycle {
        Lifecycle::Detached(self@)
    }

    /// A handle for `path`. No file need exist there yet: whatever is at
    /// the path when the handle is closed or discarded is deleted.
    pub fn from_path(path: String) -> (r: TempPath)
        ensures
            r@ == path@,
    {
        TempPath { path }
    }

    /// The path that the handle owns.
    pub fn as_str(&self) -> (r: &str)
        ensures
            r@ == self@,
    {
        self.path.as_str()
    }

    /// What [`close`](TempPath::close) returns when the platform answered
    /// the deletion with `outcome`: the same, with the path added to an
    /// error. The handle is used up either way.
    pub fn finish_close(self, outcome: Result<(), Error>) -> (r: Result<(), Error>)
        ensures
            decorated(outcome, self@, r),
    {
        with_err_path(outcome, self.path.as_str())
    }

    /// Deletes the file and gives up the handle, whether or not the
    /// deletion worked. A failure is reported with the path.
    pub fn close<P: Platform>(self, platform: &P) -> (r: Result<(), Error>)
        ensures
            exists|outcome: Result<(), Error>| #[trigger]
                removes(platform, self@, outcome) && decorated(outcome, self@, r),
    {
        let outcome = platform.remove_file(self.path.as_str());
        proof {
            assert(removes(platform, self@, outcome));
        }
        self.finish_close(outcome)
    }

    /// Deletes the file, if that is possible, and gives up the handle. This
    /// is what becomes of a handle that nothing else was done with; a
    /// failure has nowhere to go and is dropped.
    pub fn discard<P: Platform>(self, platform: &P)
        ensures
            exists|outcome: Result<(), Error>| #[trigger] removes(platform, self@, outcome),
    {
        let outcome = platform.remove_file(self.path.as_str());
        proof {
            assert(removes(platform, self@, outcome));
        }
    }

    /// What persisting returns when the platform answered the move with
    /// `outcome`: success ends the duty to delete, failure hands the handle
    /// back beside the cause.
    pub open spec fn persisted(self, outcome: Result<(), Error>) -> Result<(), PathPersistError> {
        match outcome {
            Ok(_) => Ok(()),
            Err(error) => Err(PathPersistError { error, path: self }),
        }
    }

    /// Concludes a persist that the platform answered with `outcome`.
    pub fn finish_persist(self, outcome: Result<(), Error>) -> (r: Result<(), PathPersistError>)
        ensures
            r == self.persisted(outcome),
    {
        match outcome {
            Ok(_) => Ok(()),
            Err(error) => Err(PathPersistError { error, path: self }),
        }
    }

    /// Moves the file to `new_path`, replacing in one step what is there.
    /// On success the file is no longer temporary and the handle is gone;
    /// on failure the handle comes back in the error, still owning the file.
    pub fn persist<P: Platform>(self, new_path: &str, platform: &P) -> (r: Result<
        (),
        PathPersistError,
    >)
        ensures
            exists|outcome: Result<(), Error>| #[trigger]
                persists(platform, self@, new_path@, true, outcome) && r == self.persisted(outcome),
            state_after_path_persist(new_path@, r) == self.state().after(
                Step::Persist(new_path@),
                r is Ok,
            ),
    {
        let outcome = platform.persist(self.path.as_str(), new_path, true);
        proof {
            assert(persists(platform, self@, new_path@, true, outcome));
        }
        self.finish_persist(outcome)
    }

    /// Moves the file to `new_path` unless something is there. The platform
    /// may do this in two steps, and a failure between them can leave the
    /// file under both names. On success the handle is gone; on failure it
    /// comes back in the error, still owning the file.
    pub fn persist_noclobber<P: Platform>(self, new_path: &str, platform: &P) -> (r: Result<
        (),
        PathPersistError,
    >)
        ensures
            exists|outcome: Result<(), Error>| #[trigger]
                persists(platform, self@, new_path@, false, outcome) && r == self.persisted(
                    outcome,
                ),
            state_after_path_persist(new_path@, r) == self.state().after(
                Step::PersistNoclobber(new_path@),
                r is Ok,
            ),
    {
        let outcome = platform.persist(self.path.as_str(), new_path, false);
        proof {
            assert(persists(platform, self@, new_path@, false, outcome));
        }
        self.finish_persist(outcome)
    }

    /// Relates the answer `outcome` of the platform to what keeping
    /// returns: success yields the bare path, which nothing will delete any
    /// more; failure hands the handle back beside the cause.
    pub open spec fn kept(
        self,
        outcome: Result<(), Error>,
        r: Result<String, PathPersistError>,
    ) -> bool {
        match outcome {
            Ok(_) => r is Ok && r->Ok_0@ == self@,
            Err(error) => r == Err::<String, PathPersistError>(
                PathPersistError { error, path: self },
            ),
        }
    }

    /// Concludes a keep that the platform answered with `outcome`.
    pub fn finish_keep(self, outcome: Result<(), Error>) -> (r: Result<String, PathPersistError>)
        ensures
            self.kept(outcome, r),
    {
        match outcome {
            Ok(_) => Ok(self.path),
            Err(error) => Err(PathPersistError { error, path: self }),
        }
    }

    /// Turns the file into an ordinary one, where it is. On success the
    /// result is the bare path and the file is never deleted on behalf of
    /// this handle; on failure the handle comes back in the error.
    pub fn keep<P: Platform>(self, platform: &P) -> (r: Result<String, PathPersistError>)
        ensures
            exists|outcome: Result<(), Error>| #[trigger]
                keeps(platform, self@, outcome) && self.kept(outcome, r),
            state_after_path_keep(r) == self.state().after(Step::Keep, r is Ok),
    {
        let outcome = platform.keep(self.path.as_str());
        proof {
            assert(keeps(platform, self@, outcome));
        }
        self.finish_keep(outcome)
    }
}

/// A temporary file with a name: an open file and the handle of its path.
///
/// The open file is used as any file is. The path is owned as a
/// [`TempPath`] owns it, so the duty to delete the file lasts until the file
/// is closed, persisted or kept, and passes on to the [`TempPath`] when the
/// two are taken apart.
#[derive(Debug)]
pub struct NamedTempFile<F> {
    path: TempPath,
    file: F,
}

/// The failure to persist or keep a named temporary file: the cause, and
/// the file, unchanged and still owning its path.
#[derive(Debug)]
pub struct PersistError<F> {
    /// The cause of the failure.
    pub error: Error,
    /// The temporary file that could not be persisted.
    pub file: NamedTempFile<F>,
}

impl<F> PersistError<F> {
    /// The failure in words: that a temporary file could not be persisted,
    /// and the message of the cause.
    pub fn to_string(&self) -> (r: String)
        ensures
            r@ == "failed to persist temporary file: "@ + self.error@.message,
    {
        let mut text = String::from_str("failed to persist temporary file: ");
        text.append(self.error.message());
        text
    }
}

impl<F> From<PersistError<F>> for Error {
    /// The cause of the failure; the temporary file is let go.
    fn from(error: PersistError<F>) -> (r: Error) {
        error.error
    }
}

impl<F> vstd::std_specs::convert::FromSpecImpl<PersistError<F>> for Error {
    open spec fn obeys_from_spec() -> bool {
        true
    }

    open spec fn from_spec(v: PersistError<F>) -> Error {
        v.error
    }
}

impl<F> From<PersistError<F>> for NamedTempFile<F> {
    /// The temporary file that could not be persisted; the cause is let go.
    fn from(error: PersistError<F>) -> (r: NamedTempFile<F>) {
        error.file
    }
}

impl<F> vstd::std_specs::convert::FromSpecImpl<PersistError<F>> for NamedTempFile<F> {
    open spec fn obeys_from_spec() -> bool {
        true
    }

    open spec fn from_spec(v: PersistError<F>) -> NamedTempFile<F> {
        v.file
    }
}

/// Where the file stands after an attempt to persist it to `new_path` that
/// returned `r`.
pub open spec fn state_after_persist<F>(
    new_path: Seq<char>,
    r: Result<F, PersistError<F>>,
) -> Lifecycle {
    match r {
        Ok(_) => Lifecycle::Persisted(new_path),
        Err(e) => e.file.state(),
    }
}

/// Where the file stands after an attempt to keep it that returned `r`.
pub open spec fn state_after_keep<F>(r: Result<(F, String), PersistError<F>>) -> Lifecycle {
    match r {
        Ok(parts) => Lifecycle::Kept(parts.1@),
        Err(e) => e.file.state(),
    }
}

/// Relates the answer `outcome` of `Platform::create_named` for `path` to
/// the result of creating a named temporary file there: the file that was
/// opened, owning `path`; or the platform's error, decorated with `path`.
pub open spec fn opened<F>(
    path: Seq<char>,
    outcome: Result<F, Error>,
    r: Result<NamedTempFile<F>, Error>,
) -> bool {
    match outcome {
        Ok(file) => r is Ok && r->Ok_0.file_handle() == file && r->Ok_0.path_handle()@ == path,
        Err(e) => r is Err && r->Err_0@ == e@.with_path(path),
    }
}

/// Whether `r` may result from creating a named temporary file at exactly
/// `path`.
pub open spec fn is_creation_at<P: Platform>(
    platform: &P,
    path: Seq<char>,
    options: OpenOptions,
    r: Result<NamedTempFile<P::File>, Error>,
) -> bool {
    exists|outcome: Result<P::File, Error>| #[trigger]
        creates_named(platform, path, options, outcome) && opened(path, outcome, r)
}

/// Creation at a given path as a relation between paths and results, the
/// form in which the retry loop speaks of it.
pub open spec fn creation_reply<P: Platform>(platform: &P, options: OpenOptions) -> spec_fn(
    Seq<char>,
    Result<NamedTempFile<P::File>, Error>,
) -> bool {
    |path: Seq<char>, r: Result<NamedTempFile<P::File>, Error>|
        is_creation_at(platform, path, options, r)
}

/// Whether `r` may end a run of the retry loop that creates a named
/// temporary file in the directory `base`, taken as it is, with names made
/// of `.tmp` and [`NUM_RAND_CHARS`] random characters and with the options
/// of a plain temporary file.
pub open spec fn is_creation_under<P: Platform>(
    platform: &P,
    base: Seq<char>,
    r: Result<NamedTempFile<P::File>, Error>,
) -> bool {
    exists|attempts: Seq<Attempt<NamedTempFile<P::File>>>| #[trigger]
        is_run(
            creation_reply(platform, OpenOptions { append: false, mode: None }),
            base,
            ".tmp"@,
            ""@,
            NUM_RAND_CHARS as nat,
            retry_budget_of(NUM_RAND_CHARS as nat),
            attempts,
            r,
        )
}

/// Whether `r` may result from creating a named temporary file under a
/// random name in the directory `dir`.
///
/// Either `dir` could not be made absolute, and `r` is that failure; or it
/// was, once and before the first attempt, and `r` ends a run of the retry
/// loop in the resolved directory.
pub open spec fn is_creation_in<P: Platform>(
    platform: &P,
    dir: Seq<char>,
    r: Result<NamedTempFile<P::File>, Error>,
) -> bool {
    exists|base: Result<String, Error>| #[trigger]
        is_resolution(platform, dir, base) && match base {
            Ok(base) => is_creation_under(platform, base@, r),
            Err(e) => r == Err::<NamedTempFile<P::File>, Error>(e),
        }
}

/// Whatever ends the creation of a named temporary file in `base` says where
/// it happened: a file owns a candidate path under `base`; a failure is
/// either the exhaustion of all names, decorated with `base`, or the
/// platform's failure, decorated with the candidate path that it concerns.
pub proof fn lemma_creation_names_its_path<P: Platform>(
    platform: &P,
    base: Seq<char>,
    r: Result<NamedTempFile<P::File>, Error>,
)
    requires
        is_creation_under(platform, base, r),
    ensures
        match r {
            Ok(file) => is_candidate(
                file.path_handle()@,
                base,
                ".tmp"@,
                ""@,
                NUM_RAND_CHARS as nat,
            ),
            Err(e) => {
                ||| e@ == exhausted(base)
                ||| e@.paths.len() > 0 && is_candidate(
                    e@.paths.last(),
                    base,
                    ".tmp"@,
                    ""@,
                    NUM_RAND_CHARS as nat,
                )
            },
        },
{
    let options = OpenOptions { append: false, mode: None };
    let attempts = choose|attempts: Seq<Attempt<NamedTempFile<P::File>>>| #[trigger]
        is_run(
            creation_reply(platform, options),
            base,
            ".tmp"@,
            ""@,
            NUM_RAND_CHARS as nat,
            retry_budget_of(NUM_RAND_CHARS as nat),
            attempts,
            r,
        );
    if attempts.len() > 0 && r == attempts.last().result {
        let last = attempts.last();
        assert(creation_reply(platform, options)(last.path, last.result));
        let outcome = choose|outcome: Result<P::File, Error>| #[trigger]
            creates_named(platform, last.path, options, outcome) && opened(
                last.path,
                outcome,
                last.result,
            );
        if let Err(e) = outcome {
            assert(e@.with_path(last.path).paths.last() == last.path);
        }
    }
}

/// Creates and opens a temporary file that has no name: it is gone when its
/// last handle is closed, whatever becomes of this process. `dir` is the
/// directory whose volume holds it.
pub fn tempfile_in<P: Platform>(dir: &str, platform: &P) -> (r: Result<P::File, Error>)
    ensures
        creates(platform, dir@, r),
{
    platform.create(dir)
}

/// Creates and opens a temporary file that has no name, in the directory
/// that the operating system offers for temporary files. Fails when that
/// directory's name is not valid UTF-8, and else as the platform does.
pub fn tempfile<P: Platform>(platform: &P) -> (r: Result<P::File, Error>)
    ensures
        exists|dir: Result<String, Error>| #[trigger]
            is_temp_dir(platform, dir) && match dir {
                Ok(dir) => creates(platform, dir@, r),
                Err(e) => r == Err::<P::File, Error>(e),
            },
{
    let dir = temp_dir(platform);
    proof {
        assert(is_temp_dir(platform, dir));
    }
    match dir {
        Ok(dir) => tempfile_in(dir.as_str(), platform),
        Err(e) => Err(e),
    }
}

/// Creates the file at exactly `path`, which must not exist yet, and hands
/// it back with the handle of its path. A failure is decorated with `path`.
pub fn create_at<P: Platform>(path: String, options: &OpenOptions, platform: &P) -> (r: Result<
    NamedTempFile<P::File>,
    Error,
>)
    ensures
        is_creation_at(platform, path@, *options, r),
{
    let outcome = platform.create_named(path.as_str(), options);
    proof {
        assert(creates_named(platform, path@, *options, outcome));
    }
    match outcome {
        Ok(file) => Ok(NamedTempFile { path: TempPath { path }, file }),
        Err(e) => Err(e.with_path(path.as_str())),
    }
}

/// Creates the file at `path`, which must not exist yet, and hands it back
/// with the handle of its path. A relative `path` is made absolute first,
/// so that the handle deletes this file and no other when the process has
/// changed its directory since.
pub fn create_named<P: Platform>(path: String, open_options: &OpenOptions, platform: &P) -> (r:
    Result<NamedTempFile<P::File>, Error>)
    ensures
        exists|full: Result<String, Error>| #[trigger]
            is_resolution(platform, path@, full) && match full {
                Ok(full) => is_creation_at(platform, full@, *open_options, r),
                Err(e) => r == Err::<NamedTempFile<P::File>, Error>(e),
            },
{
    let full = resolve(path, platform);
    proof {
        assert(is_resolution(platform, path@, full));
    }
    match full {
        Ok(full) => create_at(full, open_options, platform),
        Err(e) => Err(e),
    }
}

impl<F> NamedTempFile<F> {
    /// The handle of the file's path.
    pub closed spec fn path_handle(self) -> TempPath {
        self.path
    }

    /// The open file.
    pub closed spec fn file_handle(self) -> F {
        self.file
    }

    /// Where the file stands: live, and owned.
    pub open spec fn state(self) -> Lifecycle {
        Lifecycle::Live(self.path_handle()@)
    }

    /// Creates a named temporary file in the directory that the operating
    /// system offers for temporary files.
    pub fn new<P: Platform<File = F>>(platform: &P) -> (r: Result<NamedTempFile<F>, Error>)
        ensures
            exists|dir: Result<String, Error>| #[trigger]
                is_temp_dir(platform, dir) && match dir {
                    Ok(dir) => is_creation_in(platform, dir@, r),
                    Err(e) => r == Err::<NamedTempFile<F>, Error>(e),
                },
    {
        let dir = temp_dir(platform);
        proof {
            assert(is_temp_dir(platform, dir));
        }
        match dir {
            Ok(dir) => NamedTempFile::new_in(dir.as_str(), platform),
            Err(e) => Err(e),
        }
    }

    /// Creates a named temporary file in the directory `dir`, under a name
    /// made of `.tmp` and [`NUM_RAND_CHARS`] random characters.
    ///
    /// `dir` is made absolute once, before the first attempt. Names are
    /// tried until one is free; see [`create_helper`].
    pub fn new_in<P: Platform<File = F>>(dir: &str, platform: &P) -> (r: Result<
        NamedTempFile<F>,
        Error,
    >)
        ensures
            is_creation_in(platform, dir@, r),
    {
        let resolved = resolve(dir.to_owned(), platform);
        proof {
            assert(is_resolution(platform, dir@, resolved));
        }
        match resolved {
            Ok(base) => {
                let options = OpenOptions::new();
                let attempt = |path: String| -> (r: Result<NamedTempFile<F>, Error>)
                    ensures
                        is_creation_at(platform, path@, options, r),
                    { create_at(path, &options, platform) };
                let r = create_helper(base.as_str(), ".tmp", "", NUM_RAND_CHARS, attempt);
                proof {
                    let attempts = choose|attempts: Seq<Attempt<NamedTempFile<F>>>|
                        is_run(
                            reply_of(attempt),
                            base@,
                            ".tmp"@,
                            ""@,
                            NUM_RAND_CHARS as nat,
                            retry_budget_of(NUM_RAND_CHARS as nat),
                            attempts,
                            r,
                        );
                    lemma_run_under_wider_reply(
                        reply_of(attempt),
                        creation_reply(platform, options),
                        base@,
                        ".tmp"@,
                        ""@,
                        NUM_RAND_CHARS as nat,
                        retry_budget_of(NUM_RAND_CHARS as nat),
                        attempts,
                        r,
                    );
                    assert(is_creation_under(platform, base@, r));
                }
                r
            },
            Err(e) => Err(e),
        }
    }

    /// The path of the file.
    pub fn path(&self) -> (r: &str)
        ensures
            r@ == self.path_handle()@,
    {
        self.path.as_str()
    }

    /// Closes the file and deletes it. The handle of the path is given up
    /// whether or not the deletion worked; a failure is reported with the
    /// path.
    pub fn close<P: Platform>(self, platform: &P) -> (r: Result<(), Error>)
        ensures
            exists|outcome: Result<(), Error>| #[trigger]
                removes(platform, self.path_handle()@, outcome) && decorated(
                    outcome,
                    self.path_handle()@,
                    r,
                ),
    {
        let NamedTempFile { path, file: _ } = self;
        let r = path.close(platform);
        proof {
            let outcome = choose|outcome: Result<(), Error>| #[trigger]
                removes(platform, path@, outcome) && decorated(outcome, path@, r);
            assert(removes(platform, self.path_handle()@, outcome));
        }
        r
    }

    /// What persisting returns when persisting the path gave `outcome`:
    /// success hands out the open file, failure hands back the whole
    /// temporary file beside the cause.
    pub open spec fn persisted(self, outcome: Result<(), Error>) -> Result<F, PersistError<F>> {
        match outcome {
            Ok(_) => Ok(self.file_handle()),
            Err(error) => Err(PersistError { error, file: self }),
        }
    }

    /// Puts the file together again after persisting its path gave
    /// `outcome`.
    fn reassemble(file: F, outcome: Result<(), PathPersistError>) -> (r: Result<
        F,
        PersistError<F>,
    >)
        ensures
            match outcome {
                Ok(_) => r == Ok::<F, PersistError<F>>(file),
                Err(e) => r is Err && r->Err_0.error == e.error && r->Err_0.file.path_handle()
                    == e.path && r->Err_0.file.file_handle() == file,
            },
    {
        match outcome {
            Ok(_) => Ok(file),
            Err(err) => {
                let PathPersistError { error, path } = err;
                Err(PersistError { file: NamedTempFile { path, file }, error })
            },
        }
    }

    /// Moves the file to `new_path`, replacing in one step what is there.
    /// On success the file is no longer temporary and the open file is
    /// handed out; on failure the temporary file comes back in the error,
    /// as it was.
    pub fn persist<P: Platform>(self, new_path: &str, platform: &P) -> (r: Result<
        F,
        PersistError<F>,
    >)
        ensures
            exists|outcome: Result<(), Error>| #[trigger]
                persists(platform, self.path_handle()@, new_path@, true, outcome) && r
                    == self.persisted(outcome),
            state_after_persist(new_path@, r) == self.state().after(
                Step::Persist(new_path@),
                r is Ok,
            ),
    {
        let NamedTempFile { path, file } = self;
        let moved = path.persist(new_path, platform);
        proof {
            let outcome = choose|outcome: Result<(), Error>| #[trigger]
                persists(platform, path@, new_path@, true, outcome) && moved == path.persisted(
                    outcome,
                );
            assert(persists(platform, self.path_handle()@, new_path@, true, outcome));
        }
        NamedTempFile::reassemble(file, moved)
    }

    /// Moves the file to `new_path` unless something is there. The platform
    /// may do this in two steps, and a failure between them can leave the
    /// file under both names. On success the open file is handed out; on
    /// failure the temporary file comes back in the error, as it was.
    pub fn persist_noclobber<P: Platform>(self, new_path: &str, platform: &P) -> (r: Result<
        F,
        PersistError<F>,
    >)
        ensures
            exists|outcome: Result<(), Error>| #[trigger]
                persists(platform, self.path_handle()@, new_path@, false, outcome) && r
                    == self.persisted(outcome),
            state_after_persist(new_path@, r) == self.state().after(
                Step::PersistNoclobber(new_path@),
                r is Ok,
            ),
    {
        let NamedTempFile { path, file } = self;
        let moved = path.persist_noclobber(new_path, platform);
        proof {
            let outcome = choose|outcome: Result<(), Error>| #[trigger]
                persists(platform, path@, new_path@, false, outcome) && moved == path.persisted(
                    outcome,
                );
            assert(persists(platform, self.path_handle()@, new_path@, false, outcome));
        }
        NamedTempFile::reassemble(file, moved)
    }

    /// Relates the answer `outcome` of the platform to what keeping
    /// returns: success yields the open file and the bare path, which
    /// nothing will delete any more; failure hands back the whole temporary
    /// file beside the cause.
    pub open spec fn kept(
        self,
        outcome: Result<(), Error>,
        r: Result<(F, String), PersistError<F>>,
    ) -> bool {
        match outcome {
            Ok(_) => r is Ok && r->Ok_0.0 == self.file_handle() && r->Ok_0.1@
                == self.path_handle()@,
            Err(error) => r == Err::<(F, String), PersistError<F>>(
                PersistError { error, file: self },
            ),
        }
    }

    /// Turns the file into an ordinary one, where it is. On success the
    /// result is the open file and the bare path; on failure the temporary
    /// file comes back in the error, as it was.
    pub fn keep<P: Platform>(self, platform: &P) -> (r: Result<(F, String), PersistError<F>>)
        ensures
            exists|outcome: Result<(), Error>| #[trigger]
                keeps(platform, self.path_handle()@, outcome) && self.kept(outcome, r),
            state_after_keep(r) == self.state().after(Step::Keep, r is Ok),
    {
        let NamedTempFile { path, file } = self;
        let kept = path.keep(platform);
        proof {
            let outcome = choose|outcome: Result<(), Error>| #[trigger]
                keeps(platform, path@, outcome) && path.kept(outcome, kept);
            assert(keeps(platform, self.path_handle()@, outcome));
        }
        match kept {
            Ok(path) => Ok((file, path)),
            Err(PathPersistError { error, path }) => Err(
                PersistError { file: NamedTempFile { path, file }, error },
            ),
        }
    }

    /// The open file.
    pub fn as_file(&self) -> (r: &F)
        ensures
            *r == self.file_handle(),
    {
        &self.file
    }

    /// The open file, for writing to it or moving it. The path stays.
    pub fn as_file_mut(&mut self) -> (r: &mut F)
        ensures
            *r == old(self).file_handle(),
            final(self).file_handle() == *final(r),
            final(self).path_handle() == old(self).path_handle(),
    {
        &mut self.file
    }

    /// Hands out the open file and deletes the file's name, if that is
    /// possible: what was written can be read through the open file, and is
    /// gone when it is closed.
    pub fn into_file<P: Platform>(self, platform: &P) -> (r: F)
        ensures
            r == self.file_handle(),
            exists|outcome: Result<(), Error>| #[trigger]
                removes(platform, self.path_handle()@, outcome),
    {
        let NamedTempFile { path, file } = self;
        path.discard(platform);
        proof {
            let outcome = choose|outcome: Result<(), Error>| #[trigger]
                removes(platform, path@, outcome);
            assert(removes(platform, self.path_handle()@, outcome));
        }
        file
    }

    /// Closes the open file and leaves the handle of the path, which still
    /// owns the file.
    pub fn into_temp_path(self) -> (r: TempPath)
        ensures
            r == self.path_handle(),
            r.state() == self.state().after(Step::Detach, true),
    {
        self.path
    }

    /// Takes the temporary file apart. No file system operation is made:
    /// the open file stays open, and the handle of the path still owns the
    /// file.
    pub fn into_parts(self) -> (r: (F, TempPath))
        ensures
            r.0 == self.file_handle(),
            r.1 == self.path_handle(),
            r.1.state() == self.state().after(Step::Detach, true),
    {
        (self.file, self.path)
    }

    /// Puts an open file and the handle of its path together.
    pub fn from_parts(file: F, path: TempPath) -> (r: NamedTempFile<F>)
        ensures
            r.file_handle() == file,
            r.path_handle() == path,
            r.state() == path.state().after(Step::Attach, true),
    {
        NamedTempFile { file, path }
    }

    /// Opens the file once more: a second, independent open file on the
    /// same object, found through the open file and not through whatever
    /// the path names by now. A failure is reported with the path.
    pub fn reopen<P: Platform<File = F>>(&self, platform: &P) -> (r: Result<F, Error>)
        ensures
            exists|outcome: Result<F, Error>| #[trigger]
                reopens(platform, self.file_handle(), self.path_handle()@, outcome) && decorated(
                    outcome,
                    self.path_handle()@,
                    r,
                ),
    {
        let outcome = platform.reopen(&self.file, self.path.as_str());
        proof {
            assert(reopens(platform, self.file_handle(), self.path_handle()@, outcome));
        }
        with_err_path(outcome, self.path.as_str())
    }
}

} // verus!
