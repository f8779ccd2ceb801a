//! Observation of the potential mutations that this process dispatches, project by
//! project.
//!
//! It sees what goes through the runtime, of all sessions. It is no watcher of the file
//! system, no lock and no snapshot of sources.

use vstd::prelude::*;

use crate::mutation_outcome::{outcome_of, reported_outcome};
use crate::observation::{
    ascending, ObservationModel, Outcome, OutcomeModel, ProjectObservation,
};
use crate::registry_moves::{
    bounded, has_place, is_epoch, known_as, leads, Move, Observations, MAX_TRACKED_PROJECTS,
};
use crate::rule::{accepted, is_rule};
use crate::source_fence::{
    optional_fence, state_between, ValidationSourceFence, ValidationSourceState,
};
use crate::text::{same_text, strings};
use crate::tool_result::ToolResult;

verus! {

/// A new epoch, by `uuid::Uuid::new_v4` and its `simple` form.
///
/// Claimed of the outside functions is the form of the text alone: 32 lower-case
/// hexadecimal digits with the version 4 and the variant of RFC 9562 in their places.
/// The other digits are random. That no two epochs are equal is likely, not certain,
/// and is not claimed. `new_v4` panics where the system has no random bytes to give.
#[verifier::external_body]
fn fresh_epoch() -> (r: String)
    ensures
        is_epoch(r@),
{
    uuid::Uuid::new_v4().simple().to_string()
}

/// A writer that began and has not ended.
#[derive(Debug)]
pub struct MutationObservationGuard {
    project: String,
    epoch: String,
}

/// What a guard holds.
#[verifier::ext_equal]
pub struct GuardModel {
    pub project: Seq<char>,
    pub epoch: Seq<char>,
}

impl View for MutationObservationGuard {
    type V = GuardModel;

    closed spec fn view(&self) -> GuardModel {
        GuardModel { project: self.project@, epoch: self.epoch@ }
    }
}

/// Whether the guard is of a writer of an observed project, in this epoch of it.
pub open spec fn belongs(m: Observations, g: GuardModel) -> bool {
    m.contains_key(g.project) && m[g.project].epoch == g.epoch
}

/// The observed projects, and the last generation that there is.
#[derive(Debug)]
pub struct ValidationSourceRegistry {
    max_generation: u64,
    projects: Vec<(String, ProjectObservation)>,
}

/// The names of the projects.
spec fn names(s: Seq<(String, ProjectObservation)>) -> Seq<Seq<char>> {
    s.map_values(|e: (String, ProjectObservation)| e.0@)
}

impl View for ValidationSourceRegistry {
    type V = Observations;

    closed spec fn view(&self) -> Observations {
        Map::new(
            |name: Seq<char>| names(self.projects@).contains(name),
            |name: Seq<char>| self.projects@[names(self.projects@).index_of(name)].1@,
        )
    }
}

impl ValidationSourceRegistry {
    /// The last generation that there is.
    pub closed spec fn max_generation(&self) -> nat {
        self.max_generation as nat
    }

    /// No project stands twice, each observation is sound, and the bounds hold.
    pub closed spec fn wf(&self) -> bool {
        &&& names(self.projects@).no_duplicates()
        &&& self.projects@.len() <= MAX_TRACKED_PROJECTS
        &&& forall|i: int| 0 <= i < self.projects@.len() ==> (#[trigger] self.projects@[i]).1.wf()
        &&& forall|i: int|
            0 <= i < self.projects@.len() ==> (#[trigger] self.projects@[i]).1@.generation
                <= self.max_generation
    }

    /// The bounds hold of every sound registry.
    pub proof fn lemma_bounded(&self)
        requires
            self.wf(),
        ensures
            bounded(self@, self.max_generation()),
    {
        self.lemma_entries();
        assert forall|p: Seq<char>| #[trigger] self@.contains_key(p) implies self@[p].bounded(
            self.max_generation(),
        ) by {
            let i = names(self.projects@).index_of(p);
            assert(names(self.projects@).contains(p));
            assert(0 <= i < self.projects@.len() && names(self.projects@)[i] == p);
            self.projects@[i].1.lemma_pending_bounded();
        }
    }

    /// The view holds each entry under its name, and nothing else.
    proof fn lemma_entries(&self)
        requires
            names(self.projects@).no_duplicates(),
        ensures
            self@.dom() == names(self.projects@).to_set(),
            self@.dom().finite(),
            self@.dom().len() == self.projects@.len(),
            forall|i: int|
                0 <= i < self.projects@.len() ==> {
                    &&& self@.contains_key((#[trigger] self.projects@[i]).0@)
                    &&& self@[self.projects@[i].0@] == self.projects@[i].1@
                },
    {
        let all = names(self.projects@);
        all.unique_seq_to_set();
        assert(self@.dom() == all.to_set());
        assert forall|i: int| 0 <= i < self.projects@.len() implies {
            &&& self@.contains_key((#[trigger] self.projects@[i]).0@)
            &&& self@[self.projects@[i].0@] == self.projects@[i].1@
        } by {
            let name = self.projects@[i].0@;
            assert(all[i] == name);
            assert(all.contains(name));
            let k = all.index_of(name);
            assert(0 <= k < all.len() && all[k] == name);
            assert(k == i);
        }
    }

    /// A registry that observes no project yet.
    pub fn new(max_generation: u64) -> (r: ValidationSourceRegistry)
        ensures
            r.wf(),
            r.max_generation() == max_generation,
            r@ == Map::<Seq<char>, ObservationModel>::empty(),
    {
        let r = ValidationSourceRegistry { max_generation, projects: Vec::new() };
        assert(names(r.projects@) == Seq::<Seq<char>>::empty());
        assert(r@ == Map::<Seq<char>, ObservationModel>::empty());
        r
    }

    /// Where the project stands.
    fn find(&self, project: &str) -> (r: Option<usize>)
        requires
            self.wf(),
        ensures
            match r {
                Some(i) => i < self.projects@.len() && self.projects@[i as int].0@ == project@
                    && self@.contains_key(project@) && self@[project@]
                    == self.projects@[i as int].1@,
                None => !self@.contains_key(project@),
            },
    {
        proof {
            self.lemma_entries();
        }
        let wanted = project.to_owned();
        let mut i: usize = 0;
        while i < self.projects.len()
            invariant
                i <= self.projects@.len(),
                wanted@ == project@,
                self@.dom() == names(self.projects@).to_set(),
                forall|k: int|
                    0 <= k < self.projects@.len() ==> {
                        &&& self@.contains_key((#[trigger] self.projects@[k]).0@)
                        &&& self@[self.projects@[k].0@] == self.projects@[k].1@
                    },
                forall|k: int| 0 <= k < i ==> (#[trigger] self.projects@[k]).0@ != project@,
            decreases self.projects@.len() - i,
        {
            if self.projects[i].0 == wanted {
                assert(self@.contains_key(self.projects@[i as int].0@));
                return Some(i);
            }
            i = i + 1;
        }
        proof {
            let all = names(self.projects@);
            if self@.contains_key(project@) {
                assert(self@.dom().contains(project@));
                let k = choose|k: int| 0 <= k < all.len() && all[k] == project@;
                assert(self.projects@[k].0@ == project@);
            }
        }
        None
    }

    /// Replacing the observation at one place replaces it under that name.
    proof fn lemma_replaced(&self, before: &ValidationSourceRegistry, i: int)
        requires
            before.wf(),
            0 <= i < before.projects@.len(),
            self.max_generation == before.max_generation,
            self.projects@.len() == before.projects@.len(),
            self.projects@[i].0@ == before.projects@[i].0@,
            self.projects@[i].1.wf(),
            self.projects@[i].1@.generation <= self.max_generation,
            forall|k: int|
                0 <= k < self.projects@.len() && k != i ==> #[trigger] self.projects@[k]
                    == before.projects@[k],
        ensures
            self.wf(),
            self@ == before@.insert(before.projects@[i].0@, self.projects@[i].1@),
    {
        let all = names(self.projects@);
        assert(all == names(before.projects@)) by {
            assert forall|k: int| 0 <= k < all.len() implies all[k] == names(before.projects@)[k] by {
                assert(self.projects@[k].0@ == before.projects@[k].0@);
            }
        }
        self.lemma_entries();
        before.lemma_entries();
        let name = before.projects@[i].0@;
        let expected = before@.insert(name, self.projects@[i].1@);
        assert(all[i] == name);
        assert(self@.dom() == expected.dom());
        assert forall|p: Seq<char>| #[trigger] self@.contains_key(p) implies self@[p]
            == expected[p] by {
            assert(self@.dom().contains(p));
            let k = choose|k: int| 0 <= k < all.len() && all[k] == p;
            assert(self.projects@[k].0@ == p);
            assert(before.projects@[k].0@ == p);
            assert(self@[p] == self.projects@[k].1@);
            if k != i {
                assert(all[k] != all[i]);
            }
        }
        assert(self@ == expected);
    }

    /// Adds a project at its first observation of that epoch, where it is not observed
    /// yet and there is room.
    pub fn track(&mut self, project: &str, epoch: String) -> (r: bool)
        requires
            old(self).wf(),
        ensures
            final(self).wf(),
            final(self).max_generation() == old(self).max_generation(),
            r == (!old(self)@.contains_key(project@) && has_place(old(self)@, project@)),
            final(self)@ == if r {
                old(self)@.insert(project@, ObservationModel::first(epoch@))
            } else {
                old(self)@
            },
    {
        proof {
            self.lemma_entries();
        }
        if self.find(project).is_some() || self.projects.len() >= MAX_TRACKED_PROJECTS {
            return false;
        }
        let ghost first = ObservationModel::first(epoch@);
        self.projects.push((project.to_owned(), ProjectObservation::new(epoch)));
        proof {
            let before = old(self).projects@;
            let after = self.projects@;
            let n = before.len() as int;
            assert(forall|k: int| 0 <= k < n ==> after[k] == before[k]);
            assert(names(after) == names(before).push(project@));
            assert(!names(before).contains(project@)) by {
                if names(before).contains(project@) {
                    assert(old(self)@.dom().contains(project@));
                }
            }
            assert forall|i: int, j: int|
                0 <= i < names(after).len() && 0 <= j < names(after).len() && i
                    != j implies names(after)[i] != names(after)[j] by {
                if i < n {
                    assert(names(before).contains(names(before)[i]));
                }
                if j < n {
                    assert(names(before).contains(names(before)[j]));
                }
            }
            self.lemma_entries();
            let expected = old(self)@.insert(project@, first);
            assert forall|p: Seq<char>| self@.dom().contains(p) <==> expected.dom().contains(
                p,
            ) by {
                if names(before).contains(p) {
                    let k = choose|k: int| 0 <= k < n && names(before)[k] == p;
                    assert(names(after)[k] == p);
                }
                if p == project@ {
                    assert(names(after)[n] == p);
                }
                if names(after).contains(p) && p != project@ {
                    let k = choose|k: int| 0 <= k < names(after).len() && names(after)[k] == p;
                    assert(names(before)[k] == p);
                }
            }
            assert(self@.dom() == expected.dom());
            assert forall|p: Seq<char>| #[trigger] self@.contains_key(p) implies self@[p]
                == expected[p] by {
                assert(self@.dom().contains(p));
                let k = choose|k: int| 0 <= k < names(after).len() && names(after)[k] == p;
                assert(after[k].0@ == p);
                assert(self@[p] == after[k].1@);
                if k < n {
                    assert(before[k].0@ == p);
                    assert(old(self)@[p] == before[k].1@);
                    assert(names(before).contains(names(before)[k]));
                }
            }
            assert(self@ == expected);
        }
        true
    }

    /// Where the project stands; it is added where it can be observed and is not yet.
    ///
    /// A project is never dropped to make room: that would forget a writer and begin
    /// again from a clean observation.
    fn project(&mut self, project: &str) -> (r: Option<usize>)
        requires
            old(self).wf(),
        ensures
            final(self).wf(),
            final(self).max_generation() == old(self).max_generation(),
            match r {
                Some(i) => {
                    &&& has_place(old(self)@, project@)
                    &&& i < final(self).projects@.len()
                    &&& final(self).projects@[i as int].0@ == project@
                    &&& final(self)@.contains_key(project@)
                    &&& final(self)@[project@] == final(self).projects@[i as int].1@
                    &&& known_as(old(self)@, project@, final(self)@[project@])
                    &&& final(self)@ == old(self)@.insert(project@, final(self)@[project@])
                },
                None => !has_place(old(self)@, project@) && final(self)@ == old(self)@,
            },
    {
        proof {
            self.lemma_entries();
        }
        if let Some(i) = self.find(project) {
            assert(old(self)@ == old(self)@.insert(project@, old(self)@[project@]));
            return Some(i);
        }
        if self.projects.len() >= MAX_TRACKED_PROJECTS {
            return None;
        }
        let _ = self.track(project, fresh_epoch());
        self.find(project)
    }

    /// The fence of the project at this moment, where it is observed.
    pub fn fence(&self, project: &str) -> (r: Option<ValidationSourceFence>)
        requires
            self.wf(),
        ensures
            match r {
                Some(fence) => self@.contains_key(project@) && fence@ == self@[project@].fence(),
                None => !self@.contains_key(project@),
            },
    {
        match self.find(project) {
            Some(i) => Some(self.projects[i].1.snapshot()),
            None => None,
        }
    }

    /// The fence of the project at this moment; the project is observed from now on.
    pub fn capture(&mut self, project: &str) -> (r: Option<ValidationSourceFence>)
        requires
            old(self).wf(),
        ensures
            final(self).wf(),
            final(self).max_generation() == old(self).max_generation(),
            leads(old(self)@, Move::Look(project@), final(self)@, old(self).max_generation()),
            match r {
                Some(fence) => {
                    &&& has_place(old(self)@, project@)
                    &&& known_as(old(self)@, project@, final(self)@[project@])
                    &&& final(self)@ == old(self)@.insert(project@, final(self)@[project@])
                    &&& fence@ == final(self)@[project@].fence()
                },
                None => !has_place(old(self)@, project@) && final(self)@ == old(self)@,
            },
    {
        match self.project(project) {
            Some(i) => Some(self.projects[i].1.snapshot()),
            None => None,
        }
    }

    /// What the time between a fence and this moment saw.
    pub fn observe(&mut self, project: &str, start: Option<&ValidationSourceFence>) -> (r:
        ValidationSourceState)
        requires
            old(self).wf(),
        ensures
            final(self).wf(),
            final(self).max_generation() == old(self).max_generation(),
            leads(old(self)@, Move::Look(project@), final(self)@, old(self).max_generation()),
            if has_place(old(self)@, project@) {
                &&& known_as(old(self)@, project@, final(self)@[project@])
                &&& final(self)@ == old(self)@.insert(project@, final(self)@[project@])
                &&& r == state_between(
                    optional_fence(start),
                    Some(final(self)@[project@].fence()),
                )
            } else {
                &&& final(self)@ == old(self)@
                &&& r == state_between(optional_fence(start), None)
            },
    {
        let current = self.capture(project);
        ValidationSourceState::observe(start, current.as_ref())
    }

    /// The pending jobs of the project, in order.
    pub fn pending_jobs(&self, project: &str) -> (r: Vec<String>)
        requires
            self.wf(),
        ensures
            ascending(strings(r@)),
            strings(r@).to_set() == if self@.contains_key(project@) {
                self@[project@].pending
            } else {
                Set::empty()
            },
    {
        match self.find(project) {
            Some(i) => self.projects[i].1.pending(),
            None => {
                let r: Vec<String> = Vec::new();
                assert(strings(r@).to_set() == Set::<Seq<char>>::empty());
                r
            },
        }
    }

    /// How many writers of the project are active.
    pub fn active_writers(&self, project: &str) -> (r: usize)
        requires
            self.wf(),
        ensures
            r == if self@.contains_key(project@) {
                self@[project@].active
            } else {
                0
            },
    {
        match self.find(project) {
            Some(i) => self.projects[i].1.active(),
            None => 0,
        }
    }

    /// Marks that a job of the project ended.
    pub fn complete_pending_job(&mut self, project: &str, job_id: &str)
        requires
            old(self).wf(),
        ensures
            final(self).wf(),
            final(self).max_generation() == old(self).max_generation(),
            leads(old(self)@, Move::JobDone(project@, job_id@), final(self)@, old(self).max_generation()),
            final(self)@ == if old(self)@.contains_key(project@) {
                old(self)@.insert(
                    project@,
                    old(self)@[project@].job_completed(old(self).max_generation(), job_id@),
                )
            } else {
                old(self)@
            },
    {
        if let Some(i) = self.find(project) {
            let max_generation = self.max_generation;
            self.projects[i].1.complete_job(max_generation, job_id);
            proof {
                self.lemma_replaced(old(self), i as int);
            }
        }
    }

    /// Marks that a writer of the project began; the project is observed from now on.
    pub fn begin(&mut self, project: &str) -> (r: Option<MutationObservationGuard>)
        requires
            old(self).wf(),
            old(self)@.contains_key(project@) ==> old(self)@[project@].active < usize::MAX,
        ensures
            final(self).wf(),
            final(self).max_generation() == old(self).max_generation(),
            leads(old(self)@, Move::Begin(project@), final(self)@, old(self).max_generation()),
            match r {
                Some(guard) => {
                    &&& has_place(old(self)@, project@)
                    &&& exists|o: ObservationModel|
                        {
                            &&& #[trigger] known_as(old(self)@, project@, o)
                            &&& final(self)@ == old(self)@.insert(
                                project@,
                                o.begun(old(self).max_generation()),
                            )
                            &&& guard@ == (GuardModel { project: project@, epoch: o.epoch })
                        }
                },
                None => !has_place(old(self)@, project@) && final(self)@ == old(self)@,
            },
    {
        let i = match self.project(project) {
            Some(i) => i,
            None => return None,
        };
        let ghost known = self@[project@];
        let ghost mid = *self;
        let max_generation = self.max_generation;
        let epoch = self.projects[i].1.epoch().to_owned();
        self.projects[i].1.begin(max_generation);
        proof {
            self.lemma_replaced(&mid, i as int);
            assert(known_as(old(self)@, project@, known));
            assert(self@ == old(self)@.insert(project@, known.begun(old(self).max_generation())));
        }
        Some(MutationObservationGuard { project: project.to_owned(), epoch })
    }

    /// Whether the guard is of a writer that this registry observes.
    pub fn tracks(&self, guard: &MutationObservationGuard) -> (r: bool)
        requires
            self.wf(),
        ensures
            r == belongs(self@, guard@),
    {
        match self.find(guard.project.as_str()) {
            Some(i) => same_text(self.projects[i].1.epoch(), guard.epoch.as_str()),
            None => false,
        }
    }

    /// Marks that the writer ended.
    fn settle(&mut self, guard: MutationObservationGuard, outcome: Outcome)
        requires
            old(self).wf(),
            belongs(old(self)@, guard@),
        ensures
            final(self).wf(),
            final(self).max_generation() == old(self).max_generation(),
            final(self)@ == old(self)@.insert(
                guard@.project,
                old(self)@[guard@.project].settled(old(self).max_generation(), outcome@),
            ),
    {
        if let Some(i) = self.find(guard.project.as_str()) {
            let max_generation = self.max_generation;
            self.projects[i].1.settle(max_generation, outcome);
            proof {
                self.lemma_replaced(old(self), i as int);
            }
        }
    }
}

impl MutationObservationGuard {
    /// Ends the writer as its tool result reports it.
    ///
    /// `is_safe_job_id` is the rule for the names of jobs.
    pub fn finish<F: Fn(&str) -> bool>(
        self,
        registry: &mut ValidationSourceRegistry,
        result: &ToolResult,
        is_safe_job_id: F,
    )
        requires
            old(registry).wf(),
            belongs(old(registry)@, self@),
            is_rule(is_safe_job_id),
        ensures
            final(registry).wf(),
            final(registry).max_generation() == old(registry).max_generation(),
            leads(
                old(registry)@,
                Move::End(
                    self@.project,
                    reported_outcome(result@.output, accepted(is_safe_job_id)),
                ),
                final(registry)@,
                old(registry).max_generation(),
            ),
            final(registry)@ == old(registry)@.insert(
                self@.project,
                old(registry)@[self@.project].settled(
                    old(registry).max_generation(),
                    reported_outcome(result@.output, accepted(is_safe_job_id)),
                ),
            ),
    {
        let outcome = outcome_of(&result.output, is_safe_job_id);
        registry.settle(self, outcome);
    }

    /// Ends the writer without a report: nobody can say how it ended.
    pub fn drop(self, registry: &mut ValidationSourceRegistry)
        requires
            old(registry).wf(),
            belongs(old(registry)@, self@),
        ensures
            final(registry).wf(),
            final(registry).max_generation() == old(registry).max_generation(),
            leads(
                old(registry)@,
                Move::End(self@.project, OutcomeModel::Unknown),
                final(registry)@,
                old(registry).max_generation(),
            ),
            final(registry)@ == old(registry)@.insert(
                self@.project,
                old(registry)@[self@.project].settled(
                    old(registry).max_generation(),
                    OutcomeModel::Unknown,
                ),
            ),
    {
        registry.settle(self, Outcome::Unknown);
    }
}

} // verus!
