//! Remediation: deleting matched files one after the other, tolerating files
//! that are already gone, and stopping at the first real failure.
use vstd::prelude::*;
use crate::error::ScanError;

verus! {

/// What became of one path when its deletion was attempted.
pub enum RemovalOutcome {
    /// The file existed and was deleted.
    Removed,
    /// The file no longer existed; nothing was done.
    Missing,
    /// The file existed and could not be deleted.
    Failed(std::io::Error),
}

pub struct RemediationModel {
    pub paths: Seq<Seq<char>>,
    /// Index of the next path to handle.
    pub next: nat,
    /// The paths deleted so far, in order.
    pub removed: Seq<Seq<char>>,
    pub failed: bool,
}

pub open spec fn remediation_start(paths: Seq<Seq<char>>) -> RemediationModel {
    RemediationModel { paths, next: 0, removed: Seq::empty(), failed: false }
}

pub open spec fn remediation_step(m: RemediationModel, o: RemovalOutcome) -> RemediationModel {
    match o {
        RemovalOutcome::Removed => RemediationModel {
            next: m.next + 1,
            removed: m.removed.push(m.paths[m.next as int]),
            ..m
        },
        RemovalOutcome::Missing => RemediationModel { next: m.next + 1, ..m },
        RemovalOutcome::Failed(_) => RemediationModel { failed: true, ..m },
    }
}

/// The state after handling a sequence of outcomes, from the start.
pub open spec fn remediation_run(paths: Seq<Seq<char>>, outcomes: Seq<RemovalOutcome>) -> RemediationModel
    decreases outcomes.len(),
{
    if outcomes.len() == 0 {
        remediation_start(paths)
    } else {
        remediation_step(remediation_run(paths, outcomes.drop_last()), outcomes.last())
    }
}

/// The deletion of a set of paths, driven one path at a time.
pub struct Remediation {
    paths: Vec<String>,
    next: usize,
    removed: Vec<String>,
    failed: bool,
}

impl View for Remediation {
    type V = RemediationModel;

    closed spec fn view(&self) -> RemediationModel {
        RemediationModel {
            paths: self.paths@.map_values(|p: String| p@),
            next: self.next as nat,
            removed: self.removed@.map_values(|p: String| p@),
            failed: self.failed,
        }
    }
}

impl Remediation {
    pub open spec fn wf(&self) -> bool {
        self@.next <= self@.paths.len()
    }

    /// Whether some path is still to be handled.
    pub open spec fn pending(&self) -> bool {
        !self@.failed && self@.next < self@.paths.len()
    }

    pub fn new(paths: Vec<String>) -> (r: Remediation)
        ensures
            r@ == remediation_start(paths@.map_values(|p: String| p@)),
            r.wf(),
    {
        let r = Remediation { paths, next: 0, removed: Vec::new(), failed: false };
        assert(r@.removed =~= Seq::<Seq<char>>::empty());
        r
    }

    /// The next path to delete, or `None` once every path was handled or a deletion failed.
    pub fn current(&self) -> (r: Option<String>)
        requires
            self.wf(),
        ensures
            self.pending() ==> r is Some && r->Some_0@ == self@.paths[self@.next as int],
            !self.pending() ==> r is None,
    {
        if !self.failed && self.next < self.paths.len() {
            Some(self.paths[self.next].clone())
        } else {
            None
        }
    }

    /// The paths deleted so far: after a failure, those deleted before it.
    pub fn removed(&self) -> (r: Vec<String>)
        ensures
            r@.map_values(|p: String| p@) == self@.removed,
    {
        let mut r: Vec<String> = Vec::new();
        let mut i: usize = 0;
        while i < self.removed.len()
            invariant
                0 <= i <= self.removed@.len(),
                r@.len() == i,
                forall|j: int| 0 <= j < i ==> #[trigger] r@[j]@ == self.removed@[j]@,
            decreases self.removed@.len() - i,
        {
            r.push(self.removed[i].clone());
            i = i + 1;
        }
        assert(r@.map_values(|p: String| p@) =~= self.removed@.map_values(|p: String| p@));
        r
    }

    /// Records what became of the current path. A file that was already gone
    /// is no failure; a failed deletion stops the remediation with its error.
    pub fn record(&mut self, outcome: RemovalOutcome) -> (r: Result<(), ScanError>)
        requires
            old(self).wf(),
            old(self).pending(),
        ensures
            final(self).wf(),
            final(self)@ == remediation_step(old(self)@, outcome),
            match outcome {
                RemovalOutcome::Failed(e) => r == Err::<(), ScanError>(ScanError::IO(e)),
                _ => r is Ok,
            },
    {
        let len = self.paths.len();
        assert(self.next < len);
        match outcome {
            RemovalOutcome::Removed => {
                let p = self.paths[self.next].clone();
                self.removed.push(p);
                self.next = self.next + 1;
                assert(self@.removed =~= old(self)@.removed.push(old(self)@.paths[old(self)@.next as int]));
                Ok(())
            },
            RemovalOutcome::Missing => {
                self.next = self.next + 1;
                Ok(())
            },
            RemovalOutcome::Failed(e) => {
                self.failed = true;
                Err(ScanError::IO(e))
            },
        }
    }
}

/// Where no deletion fails, every path is handled, whether its file was
/// deleted or already gone, and the remediation ends without an error.
pub proof fn lemma_remediation_handles_every_path(paths: Seq<Seq<char>>, outcomes: Seq<RemovalOutcome>)
    requires
        outcomes.len() == paths.len(),
        forall|i: int| 0 <= i < outcomes.len() ==> !(#[trigger] outcomes[i] is Failed),
    ensures
        remediation_run(paths, outcomes).next == paths.len(),
        !remediation_run(paths, outcomes).failed,
{
    lemma_remediation_prefix(paths, outcomes);
}

proof fn lemma_remediation_prefix(paths: Seq<Seq<char>>, outcomes: Seq<RemovalOutcome>)
    requires
        forall|i: int| 0 <= i < outcomes.len() ==> !(#[trigger] outcomes[i] is Failed),
    ensures
        remediation_run(paths, outcomes).next == outcomes.len(),
        !remediation_run(paths, outcomes).failed,
    decreases outcomes.len(),
{
    if outcomes.len() > 0 {
        let init = outcomes.drop_last();
        assert forall|i: int| 0 <= i < init.len() implies !(#[trigger] init[i] is Failed) by {
            assert(init[i] == outcomes[i]);
        }
        lemma_remediation_prefix(paths, init);
        assert(!(outcomes[outcomes.len() - 1] is Failed));
    }
}

} // verus!
