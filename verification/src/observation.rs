//! The writers of one project, as the runtime has seen them come and go.

use vstd::prelude::*;

use crate::source_fence::{FenceModel, ValidationSourceFence};
use crate::text::{
    comes_before, lemma_text_before_irreflexive, lemma_text_before_total,
    lemma_text_before_transitive, same_text, strings, text_before,
};

verus! {

/// The most jobs of a project that can be pending.
pub const MAX_PENDING_JOBS_PER_PROJECT: usize = 256;

/// How a writer ended.
#[derive(Debug, PartialEq, Eq)]
pub enum Outcome {
    /// It is done.
    Completed,
    /// It left this job behind.
    Pending(String),
    /// Nobody can say.
    Unknown,
}

/// How a writer ended, with its text as a sequence.
#[verifier::ext_equal]
pub enum OutcomeModel {
    Completed,
    Pending(Seq<char>),
    Unknown,
}

impl View for Outcome {
    type V = OutcomeModel;

    open spec fn view(&self) -> OutcomeModel {
        match *self {
            Outcome::Completed => OutcomeModel::Completed,
            Outcome::Pending(job) => OutcomeModel::Pending(job@),
            Outcome::Unknown => OutcomeModel::Unknown,
        }
    }
}

/// What was seen of the writers of one project.
#[verifier::ext_equal]
pub struct ObservationModel {
    pub epoch: Seq<char>,
    pub generation: nat,
    pub active: nat,
    pub uncertain: bool,
    pub pending: Set<Seq<char>>,
}

impl ObservationModel {
    /// The first observation of an epoch.
    pub open spec fn first(epoch: Seq<char>) -> ObservationModel {
        ObservationModel {
            epoch,
            generation: 0,
            active: 0,
            uncertain: false,
            pending: Set::empty(),
        }
    }

    /// What the bounds allow.
    pub open spec fn bounded(self, max_generation: nat) -> bool {
        &&& self.generation <= max_generation
        &&& self.pending.finite()
        &&& self.pending.len() <= MAX_PENDING_JOBS_PER_PROJECT
    }

    /// One generation on. Behind the last one there is none: from there on nothing is
    /// certain.
    pub open spec fn advanced(self, max_generation: nat) -> ObservationModel {
        if self.generation < max_generation {
            ObservationModel { generation: self.generation + 1, ..self }
        } else {
            ObservationModel { uncertain: true, ..self }
        }
    }

    /// After a writer began.
    pub open spec fn begun(self, max_generation: nat) -> ObservationModel {
        let next = self.advanced(max_generation);
        ObservationModel { active: next.active + 1, ..next }
    }

    /// After a writer ended. A job that it left behind is pending from now on, where
    /// there is room; without room, and after an unknown end, nothing is certain.
    pub open spec fn settled(self, max_generation: nat, outcome: OutcomeModel) -> ObservationModel {
        let next = self.advanced(max_generation);
        let next = ObservationModel {
            active: if next.active > 0 {
                (next.active - 1) as nat
            } else {
                0
            },
            ..next
        };
        match outcome {
            OutcomeModel::Completed => next,
            OutcomeModel::Pending(job) => if next.pending.len() < MAX_PENDING_JOBS_PER_PROJECT {
                ObservationModel { pending: next.pending.insert(job), ..next }
            } else {
                ObservationModel { uncertain: true, ..next }
            },
            OutcomeModel::Unknown => ObservationModel { uncertain: true, ..next },
        }
    }

    /// After a job ended: where it was pending, it no longer is, a generation later.
    pub open spec fn job_completed(self, max_generation: nat, job: Seq<char>) -> ObservationModel {
        if self.pending.contains(job) {
            let next = self.advanced(max_generation);
            ObservationModel { pending: next.pending.remove(job), ..next }
        } else {
            self
        }
    }

    /// The fence at this moment.
    pub open spec fn fence(self) -> FenceModel {
        FenceModel {
            epoch: self.epoch,
            generation: self.generation,
            quiescent: self.active == 0 && self.pending.len() == 0 && !self.uncertain,
        }
    }
}

/// Whether the texts stand in order and none occurs twice.
pub open spec fn ascending(s: Seq<Seq<char>>) -> bool {
    forall|i: int, j: int| 0 <= i < j < s.len() ==> text_before(#[trigger] s[i], #[trigger] s[j])
}

/// Ascending texts are different, so there are as many of them as their set has.
pub proof fn lemma_ascending_set(s: Seq<Seq<char>>)
    requires
        ascending(s),
    ensures
        s.no_duplicates(),
        s.to_set().finite(),
        s.to_set().len() == s.len(),
{
    assert forall|i: int, j: int| 0 <= i < s.len() && 0 <= j < s.len() && i != j implies s[i]
        != s[j] by {
        lemma_text_before_irreflexive(s[i]);
    }
    s.unique_seq_to_set();
}

/// What was seen of the writers of one project.
#[derive(Debug)]
pub struct ProjectObservation {
    epoch: String,
    generation: u64,
    active: usize,
    uncertain: bool,
    pending_jobs: Vec<String>,
}

impl View for ProjectObservation {
    type V = ObservationModel;

    closed spec fn view(&self) -> ObservationModel {
        ObservationModel {
            epoch: self.epoch@,
            generation: self.generation as nat,
            active: self.active as nat,
            uncertain: self.uncertain,
            pending: strings(self.pending_jobs@).to_set(),
        }
    }
}

impl ProjectObservation {
    /// The pending jobs stand in order, none twice, and within their bound.
    pub closed spec fn wf(&self) -> bool {
        &&& ascending(strings(self.pending_jobs@))
        &&& self.pending_jobs@.len() <= MAX_PENDING_JOBS_PER_PROJECT
    }

    /// The pending jobs of a sound observation are within their bound.
    pub proof fn lemma_pending_bounded(&self)
        requires
            self.wf(),
        ensures
            self@.pending.finite(),
            self@.pending.len() <= MAX_PENDING_JOBS_PER_PROJECT,
    {
        lemma_ascending_set(strings(self.pending_jobs@));
    }

    /// The first observation of an epoch.
    pub fn new(epoch: String) -> (r: ProjectObservation)
        ensures
            r.wf(),
            r@ == ObservationModel::first(epoch@),
    {
        let r = ProjectObservation {
            epoch,
            generation: 0,
            active: 0,
            uncertain: false,
            pending_jobs: Vec::new(),
        };
        assert(strings(r.pending_jobs@) == Seq::<Seq<char>>::empty());
        assert(r@.pending == Set::<Seq<char>>::empty());
        r
    }

    /// The epoch.
    pub fn epoch(&self) -> (r: &str)
        ensures
            r@ == self@.epoch,
    {
        self.epoch.as_str()
    }

    /// How many writers are active.
    pub fn active(&self) -> (r: usize)
        ensures
            r == self@.active,
    {
        self.active
    }

    /// One generation on.
    pub fn advance(&mut self, max_generation: u64)
        requires
            old(self).wf(),
        ensures
            final(self).wf(),
            final(self)@ == old(self)@.advanced(max_generation as nat),
    {
        if self.generation < max_generation {
            self.generation = self.generation + 1;
        } else {
            self.uncertain = true;
        }
    }

    /// The fence at this moment.
    pub fn snapshot(&self) -> (r: ValidationSourceFence)
        requires
            self.wf(),
        ensures
            r@ == self@.fence(),
    {
        proof {
            lemma_ascending_set(strings(self.pending_jobs@));
        }
        ValidationSourceFence {
            epoch: self.epoch.clone(),
            generation: self.generation,
            quiescent: self.active == 0 && self.pending_jobs.is_empty() && !self.uncertain,
        }
    }

    /// Where the job stands among the pending ones, with `true`; or, with `false`, where
    /// it would stand: behind what is before the index, before what is there.
    fn locate(&self, job: &str) -> (r: (usize, bool))
        requires
            self.wf(),
        ensures
            r.0 <= self.pending_jobs@.len(),
            r.1 ==> r.0 < self.pending_jobs@.len() && self.pending_jobs@[r.0 as int]@ == job@,
            r.1 <==> strings(self.pending_jobs@).contains(job@),
            !r.1 ==> forall|i: int|
                0 <= i < r.0 ==> text_before(#[trigger] self.pending_jobs@[i]@, job@),
            !r.1 ==> forall|i: int|
                r.0 <= i < self.pending_jobs@.len() ==> text_before(
                    job@,
                    #[trigger] self.pending_jobs@[i]@,
                ),
    {
        let ghost all = strings(self.pending_jobs@);
        let mut i: usize = 0;
        while i < self.pending_jobs.len() && comes_before(self.pending_jobs[i].as_str(), job)
            invariant
                i <= self.pending_jobs@.len(),
                all == strings(self.pending_jobs@),
                forall|k: int| 0 <= k < i ==> text_before(#[trigger] self.pending_jobs@[k]@, job@),
            decreases self.pending_jobs@.len() - i,
        {
            i = i + 1;
        }
        proof {
            lemma_text_before_irreflexive(job@);
        }
        if i < self.pending_jobs.len() && same_text(self.pending_jobs[i].as_str(), job) {
            assert(all[i as int] == job@);
            return (i, true);
        }
        proof {
            assert forall|k: int| i <= k < self.pending_jobs@.len() implies text_before(
                job@,
                #[trigger] self.pending_jobs@[k]@,
            ) by {
                lemma_text_before_total(all[i as int], job@);
                if k > i {
                    assert(text_before(all[i as int], all[k]));
                    lemma_text_before_transitive(job@, all[i as int], all[k]);
                }
            }
            if all.contains(job@) {
                let k = choose|k: int| 0 <= k < all.len() && all[k] == job@;
                assert(all[k] == self.pending_jobs@[k]@);
            }
        }
        (i, false)
    }

    /// Marks the job as pending.
    fn insert_pending(&mut self, job: String)
        requires
            old(self).wf(),
            old(self).pending_jobs@.len() < MAX_PENDING_JOBS_PER_PROJECT,
        ensures
            final(self).wf(),
            final(self)@ == (ObservationModel {
                pending: old(self)@.pending.insert(job@),
                ..old(self)@
            }),
    {
        let (at, found) = self.locate(job.as_str());
        let ghost before = strings(self.pending_jobs@);
        let ghost name = job@;
        if found {
            assert(before.to_set().insert(name) == before.to_set());
            return;
        }
        self.pending_jobs.insert(at, job);
        proof {
            let after = strings(self.pending_jobs@);
            assert(after == before.insert(at as int, name));
            assert forall|i: int, j: int| 0 <= i < j < after.len() implies text_before(
                #[trigger] after[i],
                #[trigger] after[j],
            ) by {
                if i < at {
                    assert(after[i] == before[i]);
                    assert(text_before(old(self).pending_jobs@[i]@, name));
                    if j > at {
                        assert(after[j] == before[j - 1]);
                    } else if j < at {
                        assert(after[j] == before[j]);
                    }
                } else if i == at {
                    assert(after[j] == before[j - 1]);
                    assert(text_before(name, old(self).pending_jobs@[j - 1]@));
                } else {
                    assert(after[i] == before[i - 1]);
                    assert(after[j] == before[j - 1]);
                }
            }
            assert forall|t: Seq<char>| after.to_set().contains(t) <==> before.to_set().insert(
                name,
            ).contains(t) by {
                if before.contains(t) {
                    let k = choose|k: int| 0 <= k < before.len() && before[k] == t;
                    if k < at {
                        assert(after[k] == t);
                    } else {
                        assert(after[k + 1] == t);
                    }
                }
                if t == name {
                    assert(after[at as int] == t);
                }
                if after.contains(t) && t != name {
                    let k = choose|k: int| 0 <= k < after.len() && after[k] == t;
                    if k < at {
                        assert(before[k] == t);
                    } else {
                        assert(before[k - 1] == t);
                    }
                }
            }
            assert(after.to_set() == before.to_set().insert(name));
        }
    }

    /// Marks that a writer began.
    pub fn begin(&mut self, max_generation: u64)
        requires
            old(self).wf(),
            old(self)@.active < usize::MAX,
        ensures
            final(self).wf(),
            final(self)@ == old(self)@.begun(max_generation as nat),
    {
        self.advance(max_generation);
        self.active = self.active + 1;
    }

    /// Marks that a writer ended.
    pub fn settle(&mut self, max_generation: u64, outcome: Outcome)
        requires
            old(self).wf(),
        ensures
            final(self).wf(),
            final(self)@ == old(self)@.settled(max_generation as nat, outcome@),
    {
        self.advance(max_generation);
        self.active = self.active.saturating_sub(1);
        proof {
            lemma_ascending_set(strings(self.pending_jobs@));
        }
        match outcome {
            Outcome::Completed => {},
            Outcome::Pending(job) => {
                if self.pending_jobs.len() < MAX_PENDING_JOBS_PER_PROJECT {
                    self.insert_pending(job);
                } else {
                    self.uncertain = true;
                }
            },
            Outcome::Unknown => {
                self.uncertain = true;
            },
        }
    }

    /// Marks that a job ended.
    pub fn complete_job(&mut self, max_generation: u64, job: &str)
        requires
            old(self).wf(),
        ensures
            final(self).wf(),
            final(self)@ == old(self)@.job_completed(max_generation as nat, job@),
    {
        let (at, found) = self.locate(job);
        if !found {
            return;
        }
        let ghost before = strings(self.pending_jobs@);
        let _ = self.pending_jobs.remove(at);
        proof {
            let after = strings(self.pending_jobs@);
            lemma_ascending_set(before);
            assert(after == before.remove(at as int));
            assert forall|i: int, j: int| 0 <= i < j < after.len() implies text_before(
                #[trigger] after[i],
                #[trigger] after[j],
            ) by {
                assert(after[i] == before[if i < at { i } else { i + 1 }]);
                assert(after[j] == before[if j < at { j } else { j + 1 }]);
            }
            assert forall|t: Seq<char>| after.to_set().contains(t) <==> before.to_set().remove(
                job@,
            ).contains(t) by {
                if before.contains(t) && t != job@ {
                    let k = choose|k: int| 0 <= k < before.len() && before[k] == t;
                    if k < at {
                        assert(after[k] == t);
                    } else {
                        assert(after[k - 1] == t);
                    }
                }
                if after.contains(t) {
                    let k = choose|k: int| 0 <= k < after.len() && after[k] == t;
                    let b = if k < at {
                        k
                    } else {
                        k + 1
                    };
                    assert(before[b] == t);
                    assert(before[at as int] == job@ && b != at);
                }
            }
            assert(after.to_set() == before.to_set().remove(job@));
        }
        self.advance(max_generation);
    }

    /// The pending jobs, in order.
    pub fn pending(&self) -> (r: Vec<String>)
        requires
            self.wf(),
        ensures
            ascending(strings(r@)),
            strings(r@).to_set() == self@.pending,
    {
        let r = self.pending_jobs.clone();
        assert(strings(r@) == strings(self.pending_jobs@));
        r
    }
}

/// Ascending texts stand in the order of strings, from the first to the last, and none of
/// them occurs twice.
pub proof fn law_ascending_texts_are_in_order(s: Seq<Seq<char>>, i: int, j: int)
    requires
        ascending(s),
        0 <= i < j < s.len(),
    ensures
        text_before(s[i], s[j]),
        s[i] != s[j],
{
    lemma_ascending_set(s);
}

} // verus!
