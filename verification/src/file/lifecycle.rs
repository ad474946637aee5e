//! The life of a temporary file, as a state machine.
//!
//! A temporary file is *live* while a [`NamedTempFile`](super::NamedTempFile)
//! holds it open, and *detached* while only a [`TempPath`](super::TempPath)
//! owns its path. In both states the file is still owed a deletion. Closing,
//! persisting and keeping end that: the file is then deleted, persisted or
//! kept, and stays so.
//!
//! The handles follow this machine step by step: the contracts of their
//! consuming methods say so, each for its own step. What holds of every walk
//! through the machine therefore holds of every temporary file, whatever is
//! done with its handles; the laws at the end of this module are of that
//! kind.

use vstd::prelude::*;

verus! {

/// Where a temporary file stands.
pub enum Lifecycle {
    /// Open, and owned by a handle that will delete it.
    Live(Seq<char>),
    /// Not open; the path is owned by a handle that will delete it.
    Detached(Seq<char>),
    /// A deletion was asked for. Whether it worked or not, no handle is left
    /// to ask again.
    Deleted,
    /// Moved to the given path, where it is an ordinary file.
    Persisted(Seq<char>),
    /// Made an ordinary file at the path where it was created.
    Kept(Seq<char>),
}

/// What can be done with a temporary file through its handle.
pub enum Step {
    /// Take the open file and the path apart; nothing is asked of the
    /// platform.
    Detach,
    /// Put an open file and the path together; nothing is asked of the
    /// platform.
    Attach,
    /// Delete the file and report how that went.
    Close,
    /// Let the handle go without a word: the file is deleted if possible.
    Discard,
    /// Move the file to the given path, replacing what is there.
    Persist(Seq<char>),
    /// Move the file to the given path unless something is there.
    PersistNoclobber(Seq<char>),
    /// Make the file an ordinary one where it is.
    Keep,
}

impl Lifecycle {
    /// Whether a handle still owns the file and owes it a deletion.
    pub open spec fn is_owned(self) -> bool {
        self is Live || self is Detached
    }

    /// The path that the owning handle holds; meaningful while
    /// [`is_owned`](Lifecycle::is_owned).
    pub open spec fn owned_path(self) -> Seq<char> {
        match self {
            Lifecycle::Live(path) => path,
            Lifecycle::Detached(path) => path,
            _ => Seq::empty(),
        }
    }

    /// Whether taking `step` from this state asks the platform to delete
    /// the file.
    pub open spec fn asks_removal(self, step: Step) -> bool {
        self.is_owned() && (step is Close || step is Discard)
    }

    /// The state after `step`, where `accepted` tells whether the platform
    /// did what the step asked of it.
    ///
    /// Closing and discarding give the file up whatever the platform says.
    /// Persisting and keeping change the state only when the platform
    /// accepts; when it refuses, the handle is still there and the state is
    /// as before. A file that is no longer owned has no handle through
    /// which a step could be taken: its state stays.
    pub open spec fn after(self, step: Step, accepted: bool) -> Lifecycle {
        if !self.is_owned() {
            self
        } else {
            match step {
                Step::Detach => Lifecycle::Detached(self.owned_path()),
                Step::Attach => Lifecycle::Live(self.owned_path()),
                Step::Close => Lifecycle::Deleted,
                Step::Discard => Lifecycle::Deleted,
                Step::Persist(new_path) => if accepted {
                    Lifecycle::Persisted(new_path)
                } else {
                    self
                },
                Step::PersistNoclobber(new_path) => if accepted {
                    Lifecycle::Persisted(new_path)
                } else {
                    self
                },
                Step::Keep => if accepted {
                    Lifecycle::Kept(self.owned_path())
                } else {
                    self
                },
            }
        }
    }

    /// The state after the steps of `walk`, taken in order; each comes with
    /// the platform's verdict on it.
    pub open spec fn after_all(self, walk: Seq<(Step, bool)>) -> Lifecycle
        decreases walk.len(),
    {
        if walk.len() == 0 {
            self
        } else {
            self.after(walk[0].0, walk[0].1).after_all(walk.drop_first())
        }
    }

    /// How often the platform is asked to delete the file along `walk`.
    pub open spec fn removals(self, walk: Seq<(Step, bool)>) -> nat
        decreases walk.len(),
    {
        if walk.len() == 0 {
            0
        } else {
            let first: nat = if self.asks_removal(walk[0].0) {
                1
            } else {
                0
            };
            first + self.after(walk[0].0, walk[0].1).removals(walk.drop_first())
        }
    }
}

/// Once a file is deleted, persisted or kept, nothing changes its state and
/// nothing asks for its deletion.
pub proof fn lemma_finalized_stays(state: Lifecycle, walk: Seq<(Step, bool)>)
    requires
        !state.is_owned(),
    ensures
        state.after_all(walk) == state,
        state.removals(walk) == 0,
    decreases walk.len(),
{
    if walk.len() > 0 {
        lemma_finalized_stays(state, walk.drop_first());
    }
}

/// Whatever is done with a temporary file, and in whatever order, the
/// platform is asked at most once to delete it.
pub proof fn lemma_removed_at_most_once(state: Lifecycle, walk: Seq<(Step, bool)>)
    ensures
        state.removals(walk) <= 1,
    decreases walk.len(),
{
    if walk.len() > 0 {
        let next = state.after(walk[0].0, walk[0].1);
        if state.asks_removal(walk[0].0) {
            lemma_finalized_stays(next, walk.drop_first());
        } else {
            lemma_removed_at_most_once(next, walk.drop_first());
        }
    }
}

/// A file that was kept or persisted is never deleted on behalf of its
/// former handle, whatever is tried afterwards.
pub proof fn lemma_no_removal_after_success(
    state: Lifecycle,
    step: Step,
    walk: Seq<(Step, bool)>,
)
    requires
        state.is_owned(),
        step is Keep || step is Persist || step is PersistNoclobber,
    ensures
        state.removals(seq![(step, true)] + walk) == 0,
        state.after_all(seq![(step, true)] + walk) == state.after(step, true),
{
    let all = seq![(step, true)] + walk;
    assert(all.drop_first() =~= walk);
    lemma_finalized_stays(state.after(step, true), walk);
}

/// A step that the platform refuses leaves the file owned as it was, with
/// the same path: it can be taken again, or another in its place.
pub proof fn lemma_refusal_keeps_ownership(state: Lifecycle, step: Step)
    requires
        state.is_owned(),
        step is Keep || step is Persist || step is PersistNoclobber,
    ensures
        state.after(step, false) == state,
{
}

} // verus!
