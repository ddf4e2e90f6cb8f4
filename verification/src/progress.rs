//! Progress of a batch of folder operations, and the bookkeeping that
//! produces it.
//!
//! A batch reports `Started`, then for a customization `Rendering` (and on
//! failure `RenderFailed` followed by a `Completed` that counts every folder
//! as failed), then for each folder `Processing` and either
//! `FolderComplete` or `FolderFailed`, and finally `Completed` with the
//! tallies. The folder operations themselves happen outside this crate;
//! [`BatchProgress`] turns their outcomes into events.

use vstd::prelude::*;

verus! {

/// A progress event of a folder customization or reset.
#[derive(Debug)]
pub enum Progress {
    /// The batch has started.
    Started {
        /// Total number of folders to process.
        total: usize,
    },
    /// Rendering icons (once, before processing folders).
    Rendering,
    /// Icon rendering failed (e.g., invalid SVG or emoji).
    RenderFailed {
        /// Why rendering failed.
        error: String,
    },
    /// Processing a folder.
    Processing {
        /// Index of the folder (0-based).
        current: usize,
        /// Path of the folder.
        path: String,
    },
    /// A folder was processed successfully.
    FolderComplete {
        /// Index of the folder.
        index: usize,
        /// Path of the folder.
        path: String,
    },
    /// A folder failed to process.
    FolderFailed {
        /// Index of the folder.
        index: usize,
        /// Path of the folder.
        path: String,
        /// Why it failed.
        error: String,
    },
    /// The batch has finished.
    Completed {
        /// Number of folders processed successfully.
        succeeded: usize,
        /// Number of folders that failed.
        failed: usize,
    },
}

/// How many outcomes are successes.
pub open spec fn successes(outcomes: Seq<bool>) -> nat
    decreases outcomes.len(),
{
    if outcomes.len() == 0 {
        0
    } else {
        successes(outcomes.drop_last()) + if outcomes.last() { 1nat } else { 0nat }
    }
}

/// How many outcomes are failures.
pub open spec fn failures(outcomes: Seq<bool>) -> nat
    decreases outcomes.len(),
{
    if outcomes.len() == 0 {
        0
    } else {
        failures(outcomes.drop_last()) + if outcomes.last() { 0nat } else { 1nat }
    }
}

/// Successes and failures together count every outcome.
pub proof fn lemma_outcomes_partition(outcomes: Seq<bool>)
    ensures
        successes(outcomes) + failures(outcomes) == outcomes.len(),
    decreases outcomes.len(),
{
    if outcomes.len() > 0 {
        lemma_outcomes_partition(outcomes.drop_last());
    }
}

/// The tally of a batch of folder operations in progress.
pub struct BatchProgress {
    total: usize,
    succeeded: usize,
    failed: usize,
    outcomes: Ghost<Seq<bool>>,
}

impl BatchProgress {
    #[verifier::type_invariant]
    spec fn inv(self) -> bool {
        &&& self.outcomes@.len() <= self.total
        &&& self.succeeded == successes(self.outcomes@)
        &&& self.failed == failures(self.outcomes@)
    }

    /// The number of folders in the batch.
    pub closed spec fn total_spec(&self) -> nat {
        self.total as nat
    }

    /// The outcome of each folder processed so far, in order: `true` for
    /// success.
    pub closed spec fn outcomes_spec(&self) -> Seq<bool> {
        self.outcomes@
    }

    /// Starts a batch of `total` folders, with the event announcing it.
    pub fn start(total: usize) -> (r: (Self, Progress))
        ensures
            r.0.total_spec() == total,
            r.0.outcomes_spec() == Seq::<bool>::empty(),
            r.1 == (Progress::Started { total }),
    {
        (BatchProgress { total, succeeded: 0, failed: 0, outcomes: Ghost(Seq::empty()) }, Progress::Started { total })
    }

    /// The index of the next folder to process.
    pub fn next_index(&self) -> (r: usize)
        ensures
            r == self.outcomes_spec().len(),
    {
        proof {
            use_type_invariant(self);
            lemma_outcomes_partition(self.outcomes@);
        }
        self.succeeded + self.failed
    }

    /// Whether every folder has been processed.
    pub fn is_done(&self) -> (r: bool)
        ensures
            r == (self.outcomes_spec().len() == self.total_spec()),
    {
        proof {
            use_type_invariant(self);
            lemma_outcomes_partition(self.outcomes@);
        }
        self.succeeded + self.failed == self.total
    }

    /// The event announcing that the next folder, at `path`, is processed.
    pub fn processing(&self, path: &str) -> (r: Progress)
        ensures
            r matches Progress::Processing { current, path: p } && current == self.outcomes_spec().len()
                && p@ == path@,
    {
        Progress::Processing { current: self.next_index(), path: path.to_owned() }
    }

    /// Records the outcome of the next folder, at `path`, and returns the
    /// event reporting it: success, or failure with its error.
    pub fn record(&mut self, path: &str, outcome: Result<(), String>) -> (r: Progress)
        requires
            old(self).outcomes_spec().len() < old(self).total_spec(),
        ensures
            final(self).total_spec() == old(self).total_spec(),
            final(self).outcomes_spec() == old(self).outcomes_spec().push(outcome is Ok),
            match outcome {
                Ok(()) => r matches Progress::FolderComplete { index, path: p } && index
                    == old(self).outcomes_spec().len() && p@ == path@,
                Err(e) => r matches Progress::FolderFailed { index, path: p, error } && index
                    == old(self).outcomes_spec().len() && p@ == path@ && error@ == e@,
            },
    {
        proof {
            use_type_invariant(&*self);
            lemma_outcomes_partition(self.outcomes@);
        }
        let index: usize = self.succeeded + self.failed;
        let ghost before = self.outcomes@;
        match outcome {
            Ok(()) => {
                proof {
                    assert(before.push(true).drop_last() =~= before);
                }
                *self = BatchProgress {
                    total: self.total,
                    succeeded: self.succeeded + 1,
                    failed: self.failed,
                    outcomes: Ghost(before.push(true)),
                };
                Progress::FolderComplete { index, path: path.to_owned() }
            },
            Err(error) => {
                proof {
                    assert(before.push(false).drop_last() =~= before);
                }
                *self = BatchProgress {
                    total: self.total,
                    succeeded: self.succeeded,
                    failed: self.failed + 1,
                    outcomes: Ghost(before.push(false)),
                };
                Progress::FolderFailed { index, path: path.to_owned(), error }
            },
        }
    }

    /// The event closing the batch, with the tallies so far.
    pub fn finish(&self) -> (r: Progress)
        ensures
            r matches Progress::Completed { succeeded, failed } && succeeded == successes(
                self.outcomes_spec(),
            ) && failed == failures(self.outcomes_spec()),
    {
        proof {
            use_type_invariant(self);
        }
        Progress::Completed { succeeded: self.succeeded, failed: self.failed }
    }

    /// The events closing a batch whose rendering failed before any folder
    /// was processed: the failure, then a completion counting every folder
    /// as failed.
    pub fn render_failed(&self, error: String) -> (r: (Progress, Progress))
        requires
            self.outcomes_spec().len() == 0,
        ensures
            r.0 matches Progress::RenderFailed { error: e } && e@ == error@,
            r.1 == (Progress::Completed { succeeded: 0, failed: self.total_spec() as usize }),
    {
        Progress::render_failure(self.total, error)
    }
}

impl Progress {
    /// The events reporting that rendering failed for a batch of `total`
    /// folders: the failure, then a completion counting all as failed.
    pub fn render_failure(total: usize, error: String) -> (r: (Progress, Progress))
        ensures
            r.0 matches Progress::RenderFailed { error: e } && e@ == error@,
            r.1 == (Progress::Completed { succeeded: 0, failed: total }),
    {
        (Progress::RenderFailed { error }, Progress::Completed { succeeded: 0, failed: total })
    }
}

/// A finished batch accounts for every folder: what succeeded and what
/// failed add up to the batch's size.
pub proof fn lemma_completed_batch_counts_every_folder(outcomes: Seq<bool>, total: nat)
    requires
        outcomes.len() == total,
    ensures
        successes(outcomes) + failures(outcomes) == total,
{
    lemma_outcomes_partition(outcomes);
}

} // verus!
