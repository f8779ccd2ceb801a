//! What can be done to a registry of observed projects, and what each move does.

use vstd::prelude::*;

use crate::observation::{ObservationModel, OutcomeModel};

verus! {

/// The most projects that are observed.
pub const MAX_TRACKED_PROJECTS: usize = 4096;

/// A lower-case hexadecimal digit.
pub open spec fn is_lower_hex(c: char) -> bool {
    '0' <= c <= '9' || 'a' <= c <= 'f'
}

/// Whether a text has the form of an epoch: the 32 lower-case hexadecimal digits of a
/// random UUID, with the digits for its version and its variant in their places.
pub open spec fn is_epoch(t: Seq<char>) -> bool {
    &&& t.len() == 32
    &&& forall|i: int| 0 <= i < 32 ==> is_lower_hex(#[trigger] t[i])
    &&& t[12] == '4'
    &&& t[16] == '8' || t[16] == '9' || t[16] == 'a' || t[16] == 'b'
}

/// The observed projects.
pub type Observations = Map<Seq<char>, ObservationModel>;

/// Whether a project can be observed: it is already, or there is room.
pub open spec fn has_place(m: Observations, project: Seq<char>) -> bool {
    m.contains_key(project) || m.dom().len() < MAX_TRACKED_PROJECTS
}

/// Whether `o` is what is known of the project: what was seen of it, or the first
/// observation of a new epoch.
pub open spec fn known_as(m: Observations, project: Seq<char>, o: ObservationModel) -> bool {
    if m.contains_key(project) {
        o == m[project]
    } else {
        is_epoch(o.epoch) && o == ObservationModel::first(o.epoch)
    }
}

/// What the bounds allow.
pub open spec fn bounded(m: Observations, max_generation: nat) -> bool {
    &&& m.dom().finite()
    &&& m.dom().len() <= MAX_TRACKED_PROJECTS
    &&& forall|p: Seq<char>| #[trigger] m.contains_key(p) ==> m[p].bounded(max_generation)
}

/// What can be done to a registry.
pub enum Move {
    /// A fence of the project is captured or compared.
    Look(Seq<char>),
    /// A writer of the project begins.
    Begin(Seq<char>),
    /// A writer of the project ends.
    End(Seq<char>, OutcomeModel),
    /// A job of the project is reported as done.
    JobDone(Seq<char>, Seq<char>),
}

impl Move {
    /// The project that the move is about.
    pub open spec fn project(self) -> Seq<char> {
        match self {
            Move::Look(p) => p,
            Move::Begin(p) => p,
            Move::End(p, _) => p,
            Move::JobDone(p, _) => p,
        }
    }
}

/// Whether the move leads from `m` to `n`.
pub open spec fn leads(m: Observations, mv: Move, n: Observations, max_generation: nat) -> bool {
    match mv {
        Move::Look(p) => if has_place(m, p) {
            known_as(m, p, n[p]) && n == m.insert(p, n[p])
        } else {
            n == m
        },
        Move::Begin(p) => if has_place(m, p) {
            exists|o: ObservationModel| #[trigger]
                known_as(m, p, o) && n == m.insert(p, o.begun(max_generation))
        } else {
            n == m
        },
        Move::End(p, outcome) => m.contains_key(p) && n == m.insert(
            p,
            m[p].settled(max_generation, outcome),
        ),
        Move::JobDone(p, job) => if m.contains_key(p) {
            n == m.insert(p, m[p].job_completed(max_generation, job))
        } else {
            n == m
        },
    }
}

} // verus!
