//! Names for temporary files, and the loop that tries them.

use vstd::prelude::*;
use vstd::string::StringExecFns;

use crate::error::{Error, ErrorKind, ErrorView};
use crate::file::platform::{offers_current_dir, offers_temp_dir, Platform};
use crate::path::{from_path_buf, is_absolute, is_absolute_path, join, joined, utf8_text};
use crate::NUM_RETRIES;

verus! {

/// Whether `c` is one of the 62 characters `a`-`z`, `A`-`Z` and `0`-`9`.
pub open spec fn is_alphanumeric(c: char) -> bool {
    ||| 'a' <= c <= 'z'
    ||| 'A' <= c <= 'Z'
    ||| '0' <= c <= '9'
}

/// `fastrand::alphanumeric` draws a character from the thread's generator.
/// Of every draw it is claimed only that the character is one of `a`-`z`,
/// `A`-`Z` and `0`-`9`.
pub assume_specification[ fastrand::alphanumeric ]() -> (c: char)
    ensures
        is_alphanumeric(c),
;

/// `String::push` appends one character to the string.
pub assume_specification[ String::push ](s: &mut String, ch: char)
    ensures
        final(s)@ == old(s)@.push(ch),
;

/// Whether `name` is `prefix`, then `rand_len` alphanumeric characters, then
/// `suffix`.
pub open spec fn is_tmpname(
    name: Seq<char>,
    prefix: Seq<char>,
    suffix: Seq<char>,
    rand_len: nat,
) -> bool {
    &&& name.len() == prefix.len() + rand_len + suffix.len()
    &&& name.subrange(0, prefix.len() as int) == prefix
    &&& name.subrange((prefix.len() + rand_len) as int, name.len() as int) == suffix
    &&& forall|i: int|
        prefix.len() <= i < prefix.len() + rand_len ==> is_alphanumeric(#[trigger] name[i])
}

/// A name without random characters is the prefix followed by the suffix,
/// and nothing else: drawing it again cannot give another name.
pub proof fn lemma_fixed_name(name: Seq<char>, prefix: Seq<char>, suffix: Seq<char>)
    requires
        is_tmpname(name, prefix, suffix, 0),
    ensures
        name == prefix + suffix,
{
    assert(name =~= name.subrange(0, prefix.len() as int) + name.subrange(
        prefix.len() as int,
        name.len() as int,
    ));
}

/// A name holds no character that is neither alphanumeric nor in its
/// prefix or suffix. So a name is free of path separators, and names one
/// entry of the directory it is joined to, whenever prefix and suffix are.
pub proof fn lemma_name_lacks(
    name: Seq<char>,
    prefix: Seq<char>,
    suffix: Seq<char>,
    rand_len: nat,
    separator: char,
)
    requires
        is_tmpname(name, prefix, suffix, rand_len),
        !is_alphanumeric(separator),
        !prefix.contains(separator),
        !suffix.contains(separator),
    ensures
        !name.contains(separator),
{
    if name.contains(separator) {
        let i = choose|i: int| 0 <= i < name.len() && name[i] == separator;
        if i < prefix.len() {
            assert(name.subrange(0, prefix.len() as int)[i] == separator);
        } else if i >= prefix.len() + rand_len {
            let tail = name.subrange((prefix.len() + rand_len) as int, name.len() as int);
            assert(tail[i - (prefix.len() + rand_len)] == separator);
        }
    }
}

/// Builds a candidate name: `prefix`, `rand_len` random alphanumeric
/// characters, `suffix`.
pub fn tmpname(prefix: &str, suffix: &str, rand_len: usize) -> (name: String)
    ensures
        is_tmpname(name@, prefix@, suffix@, rand_len as nat),
{
    let mut buf = String::new();
    buf.append(prefix);
    let mut drawn: usize = 0;
    while drawn < rand_len
        invariant
            drawn <= rand_len,
            buf@.len() == prefix@.len() + drawn,
            buf@.subrange(0, prefix@.len() as int) == prefix@,
            forall|i: int| prefix@.len() <= i < buf@.len() ==> is_alphanumeric(#[trigger] buf@[i]),
        decreases rand_len - drawn,
    {
        let ghost before = buf@;
        buf.push(fastrand::alphanumeric());
        assert(buf@.subrange(0, prefix@.len() as int) =~= before.subrange(
            0,
            prefix@.len() as int,
        ));
        drawn += 1;
    }
    let ghost body = buf@;
    buf.append(suffix);
    assert(buf@.subrange(0, prefix@.len() as int) =~= body.subrange(0, prefix@.len() as int));
    assert(buf@.subrange(prefix@.len() + rand_len, buf@.len() as int) =~= suffix@);
    buf
}

/// The number of names that creation may try: names without random
/// characters are tried once, since a second draw gives the same name.
pub open spec fn retry_budget_of(random_len: nat) -> nat {
    if random_len != 0 {
        NUM_RETRIES as nat
    } else {
        1
    }
}

/// One call of the creation primitive: the path it was given and its answer.
pub struct Attempt<R> {
    /// The candidate path.
    pub path: Seq<char>,
    /// What the creation primitive returned for it.
    pub result: Result<R, Error>,
}

/// Whether an answer calls for another name: it does when the name was taken
/// and more than one name may be tried at all.
pub open spec fn is_retryable<R>(result: Result<R, Error>, budget: nat) -> bool {
    budget > 1 && result is Err && result->Err_0@.kind.is_collision()
}

/// Whether `path` is a candidate: `base` joined with a name made of `prefix`,
/// `random_len` alphanumeric characters and `suffix`.
pub open spec fn is_candidate(
    path: Seq<char>,
    base: Seq<char>,
    prefix: Seq<char>,
    suffix: Seq<char>,
    random_len: nat,
) -> bool {
    exists|name: Seq<char>| #[trigger]
        is_tmpname(name, prefix, suffix, random_len) && path == joined(base, name)
}

/// Whether `f`, called with a path whose text is `path`, may return `result`.
pub open spec fn may_return<F, R>(f: F, path: Seq<char>, result: Result<R, Error>) -> bool where
    F: Fn(String) -> Result<R, Error>,
 {
    exists|p: String| p@ == path && #[trigger] f.ensures((p,), result)
}

/// The answers that `f` may give, as a relation between a path's text and a
/// result.
pub open spec fn reply_of<F, R>(f: F) -> spec_fn(Seq<char>, Result<R, Error>) -> bool where
    F: Fn(String) -> Result<R, Error>,
 {
    |path: Seq<char>, result: Result<R, Error>| may_return(f, path, result)
}

/// The error that ends a run in which every name was taken.
pub open spec fn exhausted(base: Seq<char>) -> ErrorView {
    ErrorView {
        kind: ErrorKind::AlreadyExists,
        message: "too many temporary files exist"@,
        paths: seq![base],
    }
}

/// Whether `attempts`, in this order, and then `ret` are a run of the retry
/// loop with at most `budget` attempts, where `reply` says which answers the
/// creation primitive may give for a path.
///
/// Every attempt hands a candidate path to the primitive. Every attempt but
/// the last was answered with a collision. The run ends with the first
/// answer that is no collision to be retried, and returns that answer as it
/// is; or it ends when the budget is used up, and returns [`exhausted`].
pub open spec fn is_run<R>(
    reply: spec_fn(Seq<char>, Result<R, Error>) -> bool,
    base: Seq<char>,
    prefix: Seq<char>,
    suffix: Seq<char>,
    random_len: nat,
    budget: nat,
    attempts: Seq<Attempt<R>>,
    ret: Result<R, Error>,
) -> bool {
    &&& attempts.len() <= budget
    &&& forall|i: int|
        0 <= i < attempts.len() ==> {
            &&& is_candidate((#[trigger] attempts[i]).path, base, prefix, suffix, random_len)
            &&& reply(attempts[i].path, attempts[i].result)
        }
    &&& forall|i: int|
        0 <= i < attempts.len() - 1 ==> is_retryable((#[trigger] attempts[i]).result, budget)
    &&& if attempts.len() > 0 && !is_retryable(attempts.last().result, budget) {
        ret == attempts.last().result
    } else {
        attempts.len() == budget && ret is Err && ret->Err_0@ == exhausted(base)
    }
}

/// When every attempt of a run collides and names are random, the run makes
/// exactly [`NUM_RETRIES`] attempts and then fails with an error of kind
/// `AlreadyExists`.
pub proof fn lemma_colliding_run_uses_budget<R>(
    reply: spec_fn(Seq<char>, Result<R, Error>) -> bool,
    base: Seq<char>,
    prefix: Seq<char>,
    suffix: Seq<char>,
    random_len: nat,
    attempts: Seq<Attempt<R>>,
    ret: Result<R, Error>,
)
    requires
        random_len > 0,
        is_run(reply, base, prefix, suffix, random_len, retry_budget_of(random_len), attempts, ret),
        forall|i: int|
            0 <= i < attempts.len() ==> {
                &&& (#[trigger] attempts[i]).result is Err
                &&& attempts[i].result->Err_0@.kind.is_collision()
            },
    ensures
        attempts.len() == NUM_RETRIES,
        ret is Err,
        ret->Err_0@.kind == ErrorKind::AlreadyExists,
        ret->Err_0@ == exhausted(base),
{
    if attempts.len() > 0 {
        assert(is_retryable(attempts.last().result, retry_budget_of(random_len)));
    }
}

/// When names hold no random characters, a run makes exactly one attempt, on
/// `base` joined with prefix and suffix, and returns its answer, whatever
/// that answer is.
pub proof fn lemma_fixed_name_run_is_one_attempt<R>(
    reply: spec_fn(Seq<char>, Result<R, Error>) -> bool,
    base: Seq<char>,
    prefix: Seq<char>,
    suffix: Seq<char>,
    attempts: Seq<Attempt<R>>,
    ret: Result<R, Error>,
)
    requires
        is_run(reply, base, prefix, suffix, 0, retry_budget_of(0), attempts, ret),
    ensures
        attempts.len() == 1,
        ret == attempts[0].result,
        attempts[0].path == joined(base, prefix + suffix),
{
    let name = choose|name: Seq<char>| #[trigger]
        is_tmpname(name, prefix, suffix, 0) && attempts[0].path == joined(base, name);
    lemma_fixed_name(name, prefix, suffix);
}

/// A run never makes more attempts than its budget allows; one that ends in
/// success made at least one attempt and returns what the last one gave; one
/// that ends in failure returns the failure of its last attempt or, with
/// the budget used up, [`exhausted`].
pub proof fn lemma_run_is_bounded<R>(
    reply: spec_fn(Seq<char>, Result<R, Error>) -> bool,
    base: Seq<char>,
    prefix: Seq<char>,
    suffix: Seq<char>,
    random_len: nat,
    budget: nat,
    attempts: Seq<Attempt<R>>,
    ret: Result<R, Error>,
)
    requires
        is_run(reply, base, prefix, suffix, random_len, budget, attempts, ret),
    ensures
        attempts.len() <= budget,
        ret is Ok ==> attempts.len() >= 1 && ret == attempts.last().result,
        ret is Err ==> {
            ||| attempts.len() >= 1 && ret == attempts.last().result
            ||| attempts.len() == budget && ret->Err_0@ == exhausted(base)
        },
{
}

/// A run ends with the first answer that is not a collision to be retried:
/// a success, or a failure of any other kind, is the last attempt of its
/// run and is what the run returns, unchanged.
pub proof fn lemma_run_ends_at_final_answer<R>(
    reply: spec_fn(Seq<char>, Result<R, Error>) -> bool,
    base: Seq<char>,
    prefix: Seq<char>,
    suffix: Seq<char>,
    random_len: nat,
    budget: nat,
    attempts: Seq<Attempt<R>>,
    ret: Result<R, Error>,
    i: int,
)
    requires
        is_run(reply, base, prefix, suffix, random_len, budget, attempts, ret),
        0 <= i < attempts.len(),
        !is_retryable(attempts[i].result, budget),
    ensures
        i == attempts.len() - 1,
        ret == attempts[i].result,
{
}

/// A run stays a run when more answers are allowed of the primitive.
pub proof fn lemma_run_under_wider_reply<R>(
    reply: spec_fn(Seq<char>, Result<R, Error>) -> bool,
    wider: spec_fn(Seq<char>, Result<R, Error>) -> bool,
    base: Seq<char>,
    prefix: Seq<char>,
    suffix: Seq<char>,
    random_len: nat,
    budget: nat,
    attempts: Seq<Attempt<R>>,
    ret: Result<R, Error>,
)
    requires
        is_run(reply, base, prefix, suffix, random_len, budget, attempts, ret),
        forall|path: Seq<char>, result: Result<R, Error>| #[trigger]
            reply(path, result) ==> wider(path, result),
    ensures
        is_run(wider, base, prefix, suffix, random_len, budget, attempts, ret),
{
}

/// The number of names that creation may try for names of `random_len`
/// random characters.
pub fn retry_budget(random_len: usize) -> (budget: u32)
    ensures
        budget == retry_budget_of(random_len as nat),
{
    if random_len != 0 {
        NUM_RETRIES
    } else {
        1
    }
}

/// What the retry loop does after an attempt.
#[derive(Debug)]
pub enum Next<R> {
    /// The loop ends and returns this.
    Done(Result<R, Error>),
    /// The loop draws another name.
    Again,
}

/// The error that ends a run in which every name under `base` was taken.
pub fn too_many(base: &str) -> (e: Error)
    ensures
        e@ == exhausted(base@),
{
    let e = Error::new(ErrorKind::AlreadyExists, "too many temporary files exist").with_path(base);
    proof {
        assert(e@.paths =~= seq![base@]);
    }
    e
}

/// Decides what follows the attempt number `tries` of at most `budget`,
/// which was answered with `result`.
///
/// A collision is tried again while the budget lasts, if the budget is more
/// than one; when the budget is used up it ends the loop with
/// [`exhausted`]. Every other answer ends the loop and is returned as it
/// is.
pub fn after_attempt<R>(result: Result<R, Error>, tries: u32, budget: u32, base: &str) -> (next:
    Next<R>)
    requires
        1 <= tries <= budget,
    ensures
        match next {
            Next::Again => is_retryable(result, budget as nat) && tries < budget,
            Next::Done(ret) => if is_retryable(result, budget as nat) {
                tries == budget && ret is Err && ret->Err_0@ == exhausted(base@)
            } else {
                ret == result
            },
        },
{
    match result {
        Ok(value) => Next::Done(Ok(value)),
        Err(e) => {
            if budget <= 1 || !e.kind().collides() {
                Next::Done(Err(e))
            } else if tries < budget {
                Next::Again
            } else {
                Next::Done(Err(too_many(base)))
            }
        },
    }
}

/// Tries candidate names under `base` until `f` accepts one, at most
/// `budget` times.
///
/// Each attempt draws a fresh name and hands `base` joined with it to `f`;
/// [`after_attempt`] decides what follows. A collision is retried while the
/// budget lasts, if the budget is more than one; every other answer of `f`
/// is returned as it is. When the budget is used up the result is an error
/// of kind `AlreadyExists`, decorated with `base`.
pub fn create_with_budget<F, R>(
    base: &str,
    prefix: &str,
    suffix: &str,
    random_len: usize,
    budget: u32,
    f: F,
) -> (ret: Result<R, Error>) where F: Fn(String) -> Result<R, Error>
    requires
        forall|path: String| f.requires((path,)),
    ensures
        exists|attempts: Seq<Attempt<R>>|
            is_run(
                reply_of(f),
                base@,
                prefix@,
                suffix@,
                random_len as nat,
                budget as nat,
                attempts,
                ret,
            ),
{
    let ghost reply = reply_of(f);
    let mut tries: u32 = 0;
    let ghost mut attempts: Seq<Attempt<R>> = Seq::empty();
    while tries < budget
        invariant
            tries <= budget,
            attempts.len() == tries,
            forall|path: String| f.requires((path,)),
            reply == reply_of(f),
            forall|i: int|
                0 <= i < attempts.len() ==> {
                    &&& is_candidate(
                        (#[trigger] attempts[i]).path,
                        base@,
                        prefix@,
                        suffix@,
                        random_len as nat,
                    )
                    &&& reply(attempts[i].path, attempts[i].result)
                    &&& is_retryable(attempts[i].result, budget as nat)
                },
        decreases budget - tries,
    {
        let name = tmpname(prefix, suffix, random_len);
        let path = join(base, name.as_str());
        let ghost candidate = path;
        let result = f(path);
        proof {
            assert(is_tmpname(name@, prefix@, suffix@, random_len as nat));
            assert(f.ensures((candidate,), result));
            attempts = attempts.push(Attempt { path: candidate@, result });
        }
        tries += 1;
        match after_attempt(result, tries, budget, base) {
            Next::Done(ret) => {
                assert(is_run(
                    reply,
                    base@,
                    prefix@,
                    suffix@,
                    random_len as nat,
                    budget as nat,
                    attempts,
                    ret,
                ));
                return ret;
            },
            Next::Again => {},
        }
    }
    let e = too_many(base);
    assert(is_run(
        reply,
        base@,
        prefix@,
        suffix@,
        random_len as nat,
        budget as nat,
        attempts,
        Err(e),
    ));
    Err(e)
}

/// Tries candidate names under `base` until `f` accepts one: up to
/// [`NUM_RETRIES`] names when they hold random characters, one name when
/// they hold none.
///
/// Each attempt draws a fresh name and hands `base` joined with it to `f`.
/// A collision is retried; every other answer of `f` is returned as it is.
/// When all names were taken the result is an error of kind `AlreadyExists`,
/// decorated with `base`.
pub fn create_helper<F, R>(
    base: &str,
    prefix: &str,
    suffix: &str,
    random_len: usize,
    f: F,
) -> (ret: Result<R, Error>) where F: Fn(String) -> Result<R, Error>
    requires
        forall|path: String| f.requires((path,)),
    ensures
        exists|attempts: Seq<Attempt<R>>|
            is_run(
                reply_of(f),
                base@,
                prefix@,
                suffix@,
                random_len as nat,
                retry_budget_of(random_len as nat),
                attempts,
                ret,
            ),
{
    create_with_budget(base, prefix, suffix, random_len, retry_budget(random_len), f)
}

/// The error for a directory of the operating system whose name is not
/// valid UTF-8; `complaint` says which directory.
pub open spec fn not_utf8(complaint: Seq<char>) -> ErrorView {
    ErrorView { kind: ErrorKind::Other, message: complaint, paths: Seq::empty() }
}

/// What asking for a directory returns once its name was put to the UTF-8
/// test: the name where it passed, [`not_utf8`] where it did not.
pub open spec fn is_utf8_dir(
    dir: Option<String>,
    complaint: Seq<char>,
    r: Result<String, Error>,
) -> bool {
    match dir {
        Some(text) => r == Ok::<String, Error>(text),
        None => r is Err && r->Err_0@ == not_utf8(complaint),
    }
}

/// Turns the outcome of the UTF-8 test on a directory's name into a result.
pub fn utf8_dir(dir: Option<String>, complaint: &str) -> (r: Result<String, Error>)
    ensures
        is_utf8_dir(dir, complaint@, r),
{
    match dir {
        Some(text) => Ok(text),
        None => Err(Error::new(ErrorKind::Other, complaint)),
    }
}

/// Whether `r` is what the directory `dir` of the operating system comes to:
/// its text, where it is valid UTF-8, and [`not_utf8`] where it is not.
pub open spec fn is_text_of(
    dir: std::path::PathBuf,
    complaint: Seq<char>,
    r: Result<String, Error>,
) -> bool {
    match utf8_text(dir) {
        Some(text) => r is Ok && r->Ok_0@ == text,
        None => r is Err && r->Err_0@ == not_utf8(complaint),
    }
}

/// Whether `r` may result from asking for the directory for temporary
/// files: the platform named a directory, and `r` is its text, or
/// [`not_utf8`] where its name is not valid UTF-8.
pub open spec fn is_temp_dir<P: Platform>(platform: &P, r: Result<String, Error>) -> bool {
    exists|dir: std::path::PathBuf| #[trigger]
        offers_temp_dir(platform, dir) && is_text_of(dir, "OS temp_dir() is not UTF8"@, r)
}

/// The directory for temporary files, as the platform names it. Succeeds
/// whenever that name is valid UTF-8, and fails with [`not_utf8`] when it
/// is not.
pub fn temp_dir<P: Platform>(platform: &P) -> (r: Result<String, Error>)
    ensures
        is_temp_dir(platform, r),
{
    let dir = platform.temp_dir();
    let r = utf8_dir(from_path_buf(dir), "OS temp_dir() is not UTF8");
    proof {
        assert(offers_temp_dir(platform, dir));
    }
    r
}

/// Whether `r` may result from asking for the current directory: the
/// platform was asked; its failure is handed on unchanged; and where it
/// named a directory, `r` is its text, or [`not_utf8`] where its name is
/// not valid UTF-8.
pub open spec fn is_current_dir<P: Platform>(platform: &P, r: Result<String, Error>) -> bool {
    exists|outcome: Result<std::path::PathBuf, Error>| #[trigger]
        offers_current_dir(platform, outcome) && match outcome {
            Ok(dir) => is_text_of(dir, "OS current_dir() is not UTF8"@, r),
            Err(e) => r == Err::<String, Error>(e),
        }
}

/// The directory that relative paths are resolved against right now.
/// Succeeds whenever the platform names one and the name is valid UTF-8;
/// fails as the platform fails, or with [`not_utf8`].
pub fn current_dir<P: Platform>(platform: &P) -> (r: Result<String, Error>)
    ensures
        is_current_dir(platform, r),
{
    let outcome = platform.current_dir();
    proof {
        assert(offers_current_dir(platform, outcome));
    }
    match outcome {
        Ok(dir) => utf8_dir(from_path_buf(dir), "OS current_dir() is not UTF8"),
        Err(e) => Err(e),
    }
}

/// Whether `r` may result from making `path` absolute: `path` itself where
/// it is absolute already; else the current directory joined with `path`,
/// or the failure to learn the current directory.
pub open spec fn is_resolution<P: Platform>(
    platform: &P,
    path: Seq<char>,
    r: Result<String, Error>,
) -> bool {
    if is_absolute_path(path) {
        r is Ok && r->Ok_0@ == path
    } else {
        exists|dir: Result<String, Error>| #[trigger]
            is_current_dir(platform, dir) && match dir {
                Ok(dir) => r is Ok && r->Ok_0@ == joined(dir@, path),
                Err(e) => r == Err::<String, Error>(e),
            }
    }
}

/// Makes `path` absolute: an absolute path stays as it is, a relative one
/// is joined to the current directory of this moment. A file that is found
/// again by such a path is the same file wherever the process has moved to.
pub fn resolve<P: Platform>(path: String, platform: &P) -> (r: Result<String, Error>)
    ensures
        is_resolution(platform, path@, r),
        is_absolute_path(path@) ==> r == Ok::<String, Error>(path),
{
    if is_absolute(path.as_str()) {
        Ok(path)
    } else {
        let dir = current_dir(platform);
        proof {
            assert(is_current_dir(platform, dir));
        }
        match dir {
            Ok(dir) => Ok(join(dir.as_str(), path.as_str())),
            Err(e) => Err(e),
        }
    }
}

} // verus!
