//! What the fences of a project promise, over every history of its registry.

use vstd::prelude::*;

use crate::json::JsonModel;
use crate::mutation_outcome::{answers_with, law_told_end_is_believed, reported_outcome, says};
use crate::observation::{ObservationModel, OutcomeModel, MAX_PENDING_JOBS_PER_PROJECT};
use crate::registry_moves::{bounded, leads, Move, Observations, MAX_TRACKED_PROJECTS};
use crate::source_fence::{
    fence_between, freshness_of, optional_fence, state_between, FenceModel, ObservedMutationFence,
    ValidationFreshness, ValidationSourceFence,
};
use crate::validation_source::{belongs, GuardModel};

verus! {

/// Whether the move tells of a potential mutation of the project: a writer of it begins
/// or ends, or a job of it that was pending is done.
pub open spec fn tells_of(m: Observations, mv: Move, p: Seq<char>) -> bool {
    match mv {
        Move::Look(_) => false,
        Move::Begin(q) => p == q,
        Move::End(q, _) => p == q,
        Move::JobDone(q, job) => p == q && m[p].pending.contains(job),
    }
}

/// A history: the states of a registry, and the move from each to the next.
pub struct History {
    pub states: Seq<Observations>,
    pub moves: Seq<Move>,
}

impl History {
    /// Whether each move leads from its state to the next.
    pub open spec fn valid(self, max_generation: nat) -> bool {
        &&& self.states.len() == self.moves.len() + 1
        &&& forall|i: int|
            0 <= i < self.moves.len() ==> leads(
                self.states[i],
                #[trigger] self.moves[i],
                self.states[i + 1],
                max_generation,
            )
    }

    /// The history up to its state `n`.
    pub open spec fn until(self, n: int) -> History {
        History { states: self.states.take(n + 1), moves: self.moves.take(n) }
    }

    /// The history from its state `n` on.
    pub open spec fn since(self, n: int) -> History {
        History { states: self.states.skip(n), moves: self.moves.skip(n) }
    }

    /// The state at the end.
    pub open spec fn last(self) -> Observations {
        self.states.last()
    }

    /// How many writers of the project began.
    pub open spec fn begins(self, p: Seq<char>) -> nat
        decreases self.moves.len(),
    {
        if self.moves.len() == 0 {
            0
        } else {
            self.until(self.moves.len() - 1).begins(p) + if self.moves.last() == Move::Begin(p) {
                1nat
            } else {
                0
            }
        }
    }

    /// How many writers of the project ended.
    pub open spec fn ends(self, p: Seq<char>) -> nat
        decreases self.moves.len(),
    {
        if self.moves.len() == 0 {
            0
        } else {
            self.until(self.moves.len() - 1).ends(p) + if (self.moves.last() matches Move::End(q, _)
                && q == p) {
                1nat
            } else {
                0
            }
        }
    }
}

/// Every beginning of a valid history is valid, and so is every rest.
proof fn lemma_cut(h: History, n: int, max_generation: nat)
    requires
        h.valid(max_generation),
        0 <= n <= h.moves.len(),
    ensures
        h.until(n).valid(max_generation),
        h.since(n).valid(max_generation),
        h.until(n).states[0] == h.states[0],
        h.until(n).last() == h.states[n],
        h.since(n).states[0] == h.states[n],
        h.since(n).last() == h.last(),
        h.until(n).moves.len() == n,
        h.since(n).moves.len() == h.moves.len() - n,
{
    let a = h.until(n);
    assert forall|i: int| 0 <= i < a.moves.len() implies leads(
        a.states[i],
        #[trigger] a.moves[i],
        a.states[i + 1],
        max_generation,
    ) by {
        assert(a.moves[i] == h.moves[i]);
    }
    let b = h.since(n);
    assert forall|i: int| 0 <= i < b.moves.len() implies leads(
        b.states[i],
        #[trigger] b.moves[i],
        b.states[i + 1],
        max_generation,
    ) by {
        assert(b.moves[i] == h.moves[n + i]);
        assert(b.states[i + 1] == h.states[n + i + 1]);
    }
}

/// What one move does to an observed project.
proof fn lemma_one_move(
    m: Observations,
    mv: Move,
    n: Observations,
    p: Seq<char>,
    max_generation: nat,
)
    requires
        leads(m, mv, n, max_generation),
        m.contains_key(p),
    ensures
        n.contains_key(p),
        n[p].epoch == m[p].epoch,
        n[p].generation >= m[p].generation,
        m[p].uncertain ==> n[p].uncertain,
        !tells_of(m, mv, p) ==> n[p] == m[p],
        tells_of(m, mv, p) ==> n[p].uncertain || n[p].generation == m[p].generation + 1,
        tells_of(m, mv, p) && m[p].generation < max_generation ==> n[p].generation
            == m[p].generation + 1,
        tells_of(m, mv, p) && m[p].generation >= max_generation ==> n[p].uncertain,
{
}

/// A registry never drops a project: whatever is done, a project that is observed stays
/// so, in the same epoch; its generation never goes back; and once its observation is
/// uncertain it stays uncertain.
pub proof fn law_nothing_is_forgotten(h: History, p: Seq<char>, max_generation: nat)
    requires
        h.valid(max_generation),
        h.states[0].contains_key(p),
    ensures
        h.last().contains_key(p),
        h.last()[p].epoch == h.states[0][p].epoch,
        h.last()[p].generation >= h.states[0][p].generation,
        h.states[0][p].uncertain ==> h.last()[p].uncertain,
    decreases h.moves.len(),
{
    if h.moves.len() > 0 {
        let n = h.moves.len() - 1;
        lemma_cut(h, n, max_generation);
        law_nothing_is_forgotten(h.until(n), p, max_generation);
        assert(leads(h.states[n], h.moves[n], h.states[n + 1], max_generation));
        lemma_one_move(h.states[n], h.moves[n], h.states[n + 1], p, max_generation);
    }
}

/// A fence that was captured and is found uncrossed later saw no potential mutation in
/// between: no writer of the project began or ended and no pending job of it was done,
/// and all that is known of the project is as it was.
pub proof fn law_uncrossed_means_untouched(h: History, p: Seq<char>, max_generation: nat)
    requires
        h.valid(max_generation),
        h.states[0].contains_key(p),
        fence_between(Some(h.states[0][p].fence()), Some(h.last()[p].fence()))
            == ObservedMutationFence::Uncrossed,
    ensures
        forall|i: int|
            0 <= i < h.moves.len() ==> !tells_of(h.states[i], #[trigger] h.moves[i], p),
        h.last()[p] == h.states[0][p],
    decreases h.moves.len(),
{
    if h.moves.len() > 0 {
        let n = h.moves.len() - 1;
        lemma_cut(h, n, max_generation);
        law_nothing_is_forgotten(h.until(n), p, max_generation);
        assert(leads(h.states[n], h.moves[n], h.states[n + 1], max_generation));
        lemma_one_move(h.states[n], h.moves[n], h.states[n + 1], p, max_generation);
        assert(!tells_of(h.states[n], h.moves[n], p));
        law_uncrossed_means_untouched(h.until(n), p, max_generation);
        assert forall|i: int| 0 <= i < h.moves.len() implies !tells_of(
            h.states[i],
            #[trigger] h.moves[i],
            p,
        ) by {
            if i < n {
                assert(h.until(n).moves[i] == h.moves[i]);
                assert(h.until(n).states[i] == h.states[i]);
            }
        }
    }
}

/// Every potential mutation makes an earlier fence stale: where one is told of after the
/// fence was captured, and the generations had not run out then, the fence is crossed
/// and a validation from before is stale, for good.
pub proof fn law_every_mutation_crosses(h: History, i: int, p: Seq<char>, max_generation: nat)
    requires
        h.valid(max_generation),
        h.states[0].contains_key(p),
        h.states[0][p].generation < max_generation,
        0 <= i < h.moves.len(),
        tells_of(h.states[i], h.moves[i], p),
    ensures
        h.last()[p].generation > h.states[0][p].generation,
        state_between(Some(h.states[0][p].fence()), Some(h.last()[p].fence()))
            .observed_mutation_fence == ObservedMutationFence::Crossed,
        state_between(Some(h.states[0][p].fence()), Some(h.last()[p].fence())).freshness
            == ValidationFreshness::Stale,
{
    lemma_cut(h, i, max_generation);
    lemma_cut(h, i + 1, max_generation);
    law_nothing_is_forgotten(h, p, max_generation);
    law_nothing_is_forgotten(h.until(i), p, max_generation);
    assert(leads(h.states[i], h.moves[i], h.states[i + 1], max_generation));
    lemma_one_move(h.states[i], h.moves[i], h.states[i + 1], p, max_generation);
    law_nothing_is_forgotten(h.since(i + 1), p, max_generation);
}

/// Where the generations have run out, a potential mutation leaves the project without a
/// quiescent fence for good, and no fence of it is ever found uncrossed again.
pub proof fn law_exhaustion_fails_closed(h: History, i: int, p: Seq<char>, max_generation: nat)
    requires
        h.valid(max_generation),
        h.states[0].contains_key(p),
        h.states[0][p].generation >= max_generation,
        0 <= i < h.moves.len(),
        tells_of(h.states[i], h.moves[i], p),
    ensures
        !h.last()[p].fence().quiescent,
        forall|start: Option<FenceModel>| #[trigger]
            fence_between(start, Some(h.last()[p].fence())) != ObservedMutationFence::Uncrossed,
{
    lemma_cut(h, i, max_generation);
    lemma_cut(h, i + 1, max_generation);
    law_nothing_is_forgotten(h.until(i), p, max_generation);
    assert(leads(h.states[i], h.moves[i], h.states[i + 1], max_generation));
    lemma_one_move(h.states[i], h.moves[i], h.states[i + 1], p, max_generation);
    law_nothing_is_forgotten(h.since(i + 1), p, max_generation);
}

/// A writer that ended in an unknown way, or was given up, leaves the project without a
/// quiescent fence for good, whatever later writers report.
pub proof fn law_unknown_end_is_final(h: History, i: int, p: Seq<char>, max_generation: nat)
    requires
        h.valid(max_generation),
        0 <= i < h.moves.len(),
        h.moves[i] == Move::End(p, OutcomeModel::Unknown),
    ensures
        h.last().contains_key(p),
        !h.last()[p].fence().quiescent,
        forall|start: Option<FenceModel>| #[trigger]
            fence_between(start, Some(h.last()[p].fence())) != ObservedMutationFence::Uncrossed,
{
    lemma_cut(h, i + 1, max_generation);
    assert(leads(h.states[i], h.moves[i], h.states[i + 1], max_generation));
    law_nothing_is_forgotten(h.since(i + 1), p, max_generation);
}

/// There are at least as many active writers as were active and began and have not
/// ended.
pub proof fn law_active_writers_are_counted(h: History, p: Seq<char>, max_generation: nat)
    requires
        h.valid(max_generation),
        h.states[0].contains_key(p),
    ensures
        h.last().contains_key(p),
        h.last()[p].active + h.ends(p) >= h.states[0][p].active + h.begins(p),
    decreases h.moves.len(),
{
    if h.moves.len() > 0 {
        let n = h.moves.len() - 1;
        lemma_cut(h, n, max_generation);
        law_active_writers_are_counted(h.until(n), p, max_generation);
        assert(leads(h.states[n], h.moves[n], h.states[n + 1], max_generation));
    }
}

/// A project is quiescent only after every writer that began has ended.
pub proof fn law_quiescent_after_every_end(h: History, p: Seq<char>, max_generation: nat)
    requires
        h.valid(max_generation),
        h.states[0].contains_key(p),
        h.last()[p].fence().quiescent,
    ensures
        h.ends(p) >= h.states[0][p].active + h.begins(p),
{
    law_active_writers_are_counted(h, p, max_generation);
}

/// A guard is one of the registry exactly where its project is observed in its epoch.
pub proof fn law_guard_is_known_by_its_epoch(m: Observations, g: GuardModel)
    ensures
        belongs(m, g) <==> m.contains_key(g.project) && m[g.project].epoch == g.epoch,
{
}

/// What is done to one project leaves every other as it was.
pub proof fn law_projects_are_independent(
    m: Observations,
    mv: Move,
    n: Observations,
    p: Seq<char>,
    max_generation: nat,
)
    requires
        leads(m, mv, n, max_generation),
        mv.project() != p,
    ensures
        n.contains_key(p) == m.contains_key(p),
        m.contains_key(p) ==> n[p] == m[p],
{
}

/// A writer can end at any later time: whatever is done meanwhile, its guard stays one
/// of the registry that gave it.
pub proof fn law_guards_stay_valid(h: History, g: GuardModel, max_generation: nat)
    requires
        h.valid(max_generation),
        belongs(h.states[0], g),
    ensures
        belongs(h.last(), g),
{
    law_nothing_is_forgotten(h, g.project, max_generation);
}

/// Fences of different epochs, and a fence without its counterpart, say nothing of each
/// other, and leave a validation unproven.
pub proof fn law_epochs_are_not_interchangeable(start: FenceModel, now: FenceModel)
    requires
        start.epoch != now.epoch,
    ensures
        state_between(Some(start), Some(now)).observed_mutation_fence
            == ObservedMutationFence::Unknown,
        state_between(Some(start), Some(now)).freshness == ValidationFreshness::Unproven,
        state_between(Some(start), None).observed_mutation_fence == ObservedMutationFence::Unknown,
        state_between(Some(start), None).freshness == ValidationFreshness::Unproven,
        state_between(None, Some(now)).observed_mutation_fence == ObservedMutationFence::Unknown,
        state_between(None, Some(now)).freshness == ValidationFreshness::Unproven,
{
}

/// A fence is not crossed by itself: it is uncrossed where it is quiescent, and else
/// nobody can say.
pub proof fn law_fence_against_itself(f: FenceModel)
    ensures
        fence_between(Some(f), Some(f)) == if f.quiescent {
            ObservedMutationFence::Uncrossed
        } else {
            ObservedMutationFence::Unknown
        },
        freshness_of(fence_between(Some(f), Some(f))) == ValidationFreshness::Unproven,
{
}

/// A writer that begins and completes leaves two generations behind and nothing else.
pub proof fn law_completed_writer_leaves_no_trace(o: ObservationModel, max_generation: nat)
    requires
        o.generation + 2 <= max_generation,
    ensures
        o.begun(max_generation).settled(max_generation, OutcomeModel::Completed) == (
        ObservationModel { generation: o.generation + 2, ..o }),
        o.begun(max_generation).settled(max_generation, OutcomeModel::Completed).fence().quiescent
            == o.fence().quiescent,
        !o.begun(max_generation).fence().quiescent,
{
}

/// A writer that leaves a job behind keeps its project from being quiescent until that
/// job is done; then three generations are left behind and nothing else.
pub proof fn law_handed_over_job(o: ObservationModel, job: Seq<char>, max_generation: nat)
    requires
        o.generation + 3 <= max_generation,
        o.bounded(max_generation),
        o.pending.len() < MAX_PENDING_JOBS_PER_PROJECT,
        !o.pending.contains(job),
    ensures
        ({
            let handed = o.begun(max_generation).settled(
                max_generation,
                OutcomeModel::Pending(job),
            );
            &&& handed.pending == o.pending.insert(job)
            &&& !handed.fence().quiescent
            &&& handed.job_completed(max_generation, job) == (ObservationModel {
                generation: o.generation + 3,
                ..o
            })
        }),
{
    assert(o.pending.insert(job).remove(job) == o.pending);
}

/// A job without room leaves its project without a quiescent fence for good: it becomes
/// uncertain, and none of the pending jobs is dropped for it.
pub proof fn law_overflow_fails_closed(o: ObservationModel, job: Seq<char>, max_generation: nat)
    requires
        o.pending.len() >= MAX_PENDING_JOBS_PER_PROJECT,
    ensures
        o.settled(max_generation, OutcomeModel::Pending(job)).uncertain,
        o.settled(max_generation, OutcomeModel::Pending(job)).pending == o.pending,
        !o.settled(max_generation, OutcomeModel::Pending(job)).fence().quiescent,
{
}

/// A registry that is full takes no new project and keeps all that it has.
pub proof fn law_full_registry_refuses_newcomers(
    m: Observations,
    mv: Move,
    n: Observations,
    max_generation: nat,
)
    requires
        leads(m, mv, n, max_generation),
        m.dom().len() >= MAX_TRACKED_PROJECTS,
    ensures
        n.dom() == m.dom(),
        !m.contains_key(mv.project()) ==> n == m,
{
    assert(n.dom() == m.dom());
}

/// The bounds hold after every move where they held before.
pub proof fn law_bounds_are_kept(
    m: Observations,
    mv: Move,
    n: Observations,
    max_generation: nat,
)
    requires
        bounded(m, max_generation),
        leads(m, mv, n, max_generation),
    ensures
        bounded(n, max_generation),
{
    let p = mv.project();
    assert(n == m || n == m.insert(p, n[p]));
    assert forall|q: Seq<char>| #[trigger] n.contains_key(q) implies n[q].bounded(
        max_generation,
    ) by {
        if q != p || n == m {
            assert(m.contains_key(q));
        } else if m.contains_key(p) {
            assert(m[p].bounded(max_generation));
        }
    }
}

/// A new observation has seen nothing yet: no generation, no writer, no job, and nothing
/// uncertain.
pub proof fn law_first_observation(epoch: Seq<char>)
    ensures
        ObservationModel::first(epoch).epoch == epoch,
        ObservationModel::first(epoch).generation == 0,
        ObservationModel::first(epoch).active == 0,
        !ObservationModel::first(epoch).uncertain,
        forall|job: Seq<char>| !#[trigger] ObservationModel::first(epoch).pending.contains(job),
        ObservationModel::first(epoch).fence().quiescent,
{
}

/// A writer that begins is one active writer more and one generation more; where there is
/// no further generation, the observation becomes uncertain instead. All else stays.
pub proof fn law_writer_begins(o: ObservationModel, max_generation: nat)
    ensures
        ({
            let n = o.begun(max_generation);
            &&& n.epoch == o.epoch
            &&& n.active == o.active + 1
            &&& n.pending == o.pending
            &&& o.generation < max_generation ==> n.generation == o.generation + 1 && n.uncertain
                == o.uncertain
            &&& o.generation >= max_generation ==> n.generation == o.generation && n.uncertain
        }),
{
}

/// A writer that ends is one active writer less, where there is one, and one generation
/// more. The job that it leaves behind becomes pending, while fewer than 256 are. The
/// observation becomes uncertain exactly where the end is unknown, where the job has no
/// room, and where there is no further generation. All else stays.
pub proof fn law_writer_ends(o: ObservationModel, outcome: OutcomeModel, max_generation: nat)
    ensures
        ({
            let n = o.settled(max_generation, outcome);
            let room = o.pending.len() < 256;
            &&& n.epoch == o.epoch
            &&& o.active > 0 ==> n.active == o.active - 1
            &&& o.active == 0 ==> n.active == 0
            &&& n.generation == if o.generation < max_generation {
                o.generation + 1
            } else {
                o.generation
            }
            &&& match outcome {
                OutcomeModel::Pending(job) => n.pending == if room {
                    o.pending.insert(job)
                } else {
                    o.pending
                },
                _ => n.pending == o.pending,
            }
            &&& n.uncertain <==> o.uncertain || o.generation >= max_generation
                || outcome is Unknown || outcome is Pending && !room
        }),
{
}

/// A pending job that is done is no longer pending, one generation later; where there is no
/// further generation, the observation becomes uncertain instead. The other jobs and the
/// active writers stay. A job that is not pending changes nothing.
pub proof fn law_job_is_done(o: ObservationModel, job: Seq<char>, max_generation: nat)
    ensures
        ({
            let n = o.job_completed(max_generation, job);
            &&& !o.pending.contains(job) ==> n == o
            &&& o.pending.contains(job) ==> {
                &&& n.epoch == o.epoch
                &&& n.active == o.active
                &&& n.pending == o.pending.remove(job)
                &&& o.generation < max_generation ==> n.generation == o.generation + 1
                    && n.uncertain == o.uncertain
                &&& o.generation >= max_generation ==> n.generation == o.generation && n.uncertain
            }
        }),
{
}

/// A fence tells the epoch and the generation of its observation, and is quiescent exactly
/// where no writer is active, no job is pending and nothing is uncertain.
pub proof fn law_fence_tells_the_observation(o: ObservationModel)
    requires
        o.pending.finite(),
    ensures
        o.fence().epoch == o.epoch,
        o.fence().generation == o.generation,
        o.fence().quiescent <==> o.active == 0 && !o.uncertain && forall|job: Seq<char>|
            !#[trigger] o.pending.contains(job),
{
    if o.pending.len() == 0 {
        assert(o.pending =~= Set::empty());
    } else if forall|job: Seq<char>| !#[trigger] o.pending.contains(job) {
        assert(o.pending =~= Set::empty());
    }
}

/// Two fences of one epoch are crossed exactly where their generations differ, and uncrossed
/// exactly where they do not and both are quiescent; it makes no difference which of them
/// comes first. Only a crossed fence makes a validation stale.
pub proof fn law_fences_are_compared(a: FenceModel, b: FenceModel)
    ensures
        state_between(Some(a), Some(b)) == state_between(Some(b), Some(a)),
        state_between(Some(a), Some(b)).observed_mutation_fence is Crossed <==> a.epoch == b.epoch
            && a.generation != b.generation,
        state_between(Some(a), Some(b)).observed_mutation_fence is Uncrossed <==> a == b
            && a.quiescent,
        state_between(Some(a), Some(b)).freshness is Stale <==> a.epoch == b.epoch && a.generation
            != b.generation,
        state_between(None, None).observed_mutation_fence is Unknown,
        state_between(None, None).freshness is Unproven,
{
}

/// A fence holds its own parts.
pub proof fn law_fence_holds_its_parts(f: &ValidationSourceFence)
    ensures
        optional_fence(Some(f)) == Some(f@),
        optional_fence(None) is None,
        f@.epoch == f.epoch@,
        f@.generation == f.generation,
        f@.quiescent == f.quiescent,
{
}

/// To look at a project changes nothing, except that one that was not observed is observed
/// from now on, in its first state, while fewer than 4096 are; then it is the only change.
pub proof fn law_looking_changes_nothing(
    m: Observations,
    n: Observations,
    p: Seq<char>,
    max_generation: nat,
)
    requires
        leads(m, Move::Look(p), n, max_generation),
    ensures
        m.contains_key(p) ==> n == m,
        !m.contains_key(p) && m.dom().len() >= 4096 ==> n == m,
        !m.contains_key(p) && m.dom().len() < 4096 ==> {
            &&& n.dom() == m.dom().insert(p)
            &&& n[p].generation == 0 && n[p].active == 0 && !n[p].uncertain
            &&& n[p].fence().quiescent
            &&& n[p].epoch.len() == 32
        },
{
    if m.contains_key(p) {
        assert(n == m);
    }
}

/// A writer that begins is counted: in a project that is observed on top of what was seen,
/// in another one on top of its first state, while fewer than 4096 are observed.
pub proof fn law_beginning_is_counted(
    m: Observations,
    n: Observations,
    p: Seq<char>,
    max_generation: nat,
)
    requires
        leads(m, Move::Begin(p), n, max_generation),
    ensures
        m.contains_key(p) ==> n == m.insert(p, m[p].begun(max_generation)),
        !m.contains_key(p) && m.dom().len() >= 4096 ==> n == m,
        !m.contains_key(p) && m.dom().len() < 4096 ==> n.dom() == m.dom().insert(p) && n[p].active
            == 1 && !n[p].fence().quiescent,
{
}

/// A writer that ends and a job that is done change their own project alone, in the way
/// that the end and the job change its observation.
pub proof fn law_end_and_job_are_noted(
    m: Observations,
    n: Observations,
    p: Seq<char>,
    outcome: OutcomeModel,
    job: Seq<char>,
    max_generation: nat,
)
    ensures
        leads(m, Move::End(p, outcome), n, max_generation) ==> m.contains_key(p) && n == m.insert(
            p,
            m[p].settled(max_generation, outcome),
        ),
        leads(m, Move::JobDone(p, job), n, max_generation) ==> n == if m.contains_key(p) {
            m.insert(p, m[p].job_completed(max_generation, job))
        } else {
            m
        },
{
}

/// A writer whose output tells its end leaves a project as quiescent as it was: one that
/// was quiescent is again, and a fence captured then is found uncrossed. The output tells
/// the end where its command ran to its end or never started, or, without a job, where it
/// says whether anything changed, and none of its states says that the end is unknown.
pub proof fn law_told_end_keeps_quiescence(
    o: ObservationModel,
    output: JsonModel,
    job: Seq<char>,
    is_safe_job_id: spec_fn(Seq<char>) -> bool,
    max_generation: nat,
)
    requires
        o.generation + 2 <= max_generation,
        !says(output, "execution_state"@, "outcome_unknown"@),
        !says(output, "execution_state"@, "lost"@),
        !says(output, "failure_kind"@, "outcome_unknown"@),
        !says(output, "failure_kind"@, "lost"@),
        !says(output, "command_execution_state"@, "outcome_unknown"@),
        ({
            let over = answers_with(output, "command_completed"@, true) || answers_with(
                output,
                "command_started"@,
                false,
            );
            let change_told = answers_with(output, "state_changed"@, true) || answers_with(
                output,
                "state_changed"@,
                false,
            );
            let no_job = output.member("job_id"@) is None || output.member("job_id"@) == Some(
                JsonModel::Null,
            );
            ||| no_job && (over || change_told)
            ||| says(output, "job_id"@, job) && is_safe_job_id(job) && over
        }),
    ensures
        ({
            let after = o.begun(max_generation).settled(
                max_generation,
                reported_outcome(output, is_safe_job_id),
            );
            &&& after.fence().quiescent == o.fence().quiescent
            &&& after.active == o.active && after.pending == o.pending && after.uncertain
                == o.uncertain
            &&& o.fence().quiescent ==> fence_between(Some(after.fence()), Some(after.fence()))
                == ObservedMutationFence::Uncrossed
            &&& fence_between(Some(o.fence()), Some(after.fence()))
                == ObservedMutationFence::Crossed
        }),
{
    law_told_end_is_believed(output, job, is_safe_job_id);
}

} // verus!
