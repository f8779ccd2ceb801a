//! Fences: what is known of the writers of a project at one moment, and what two such
//! moments say about the time between them.

use vstd::prelude::*;

use crate::text::same_text;

verus! {

/// What is known of the writers of a project at one moment.
///
/// Generations can be compared within one epoch only. A fence is quiescent where no
/// writer is active, none left work behind, and none ended in an unknown way.
#[derive(Clone, Debug, PartialEq, Eq)]
pub struct ValidationSourceFence {
    pub epoch: String,
    pub generation: u64,
    pub quiescent: bool,
}

/// What a fence holds.
#[verifier::ext_equal]
pub struct FenceModel {
    pub epoch: Seq<char>,
    pub generation: nat,
    pub quiescent: bool,
}

impl View for ValidationSourceFence {
    type V = FenceModel;

    open spec fn view(&self) -> FenceModel {
        FenceModel {
            epoch: self.epoch@,
            generation: self.generation as nat,
            quiescent: self.quiescent,
        }
    }
}

/// What an optional fence holds.
pub open spec fn optional_fence(fence: Option<&ValidationSourceFence>) -> Option<FenceModel> {
    match fence {
        Some(f) => Some(f@),
        None => None,
    }
}

/// Whether a potential mutation was dispatched between two moments.
#[derive(Clone, Copy, Debug, PartialEq, Eq, Structural)]
pub enum ObservedMutationFence {
    /// Nobody can say.
    Unknown,
    /// At least one was.
    Crossed,
    /// None was.
    Uncrossed,
}

/// What that means for a validation between the two moments.
///
/// There is no value for a proven one: a validator runs code of the project, and what
/// that code writes goes through no fence.
#[derive(Clone, Copy, Debug, PartialEq, Eq, Structural)]
pub enum ValidationFreshness {
    /// It read sources that may have changed since.
    Stale,
    /// Nothing speaks against it, and nothing proves it.
    Unproven,
}

/// What two moments say about the time between them.
#[derive(Clone, Copy, Debug, PartialEq, Eq, Structural)]
pub struct ValidationSourceState {
    pub observed_mutation_fence: ObservedMutationFence,
    pub freshness: ValidationFreshness,
}

/// Whether a potential mutation was dispatched between two moments. Without both
/// fences, or across epochs, nobody can say. Different generations show that one was.
/// Equal ones show that none was only where both fences are quiescent.
pub open spec fn fence_between(
    start: Option<FenceModel>,
    now: Option<FenceModel>,
) -> ObservedMutationFence {
    match (start, now) {
        (Some(start), Some(now)) => if start.epoch != now.epoch {
            ObservedMutationFence::Unknown
        } else if start.generation != now.generation {
            ObservedMutationFence::Crossed
        } else if start.quiescent && now.quiescent {
            ObservedMutationFence::Uncrossed
        } else {
            ObservedMutationFence::Unknown
        },
        _ => ObservedMutationFence::Unknown,
    }
}

/// A crossed fence makes a validation stale; nothing makes it proven.
pub open spec fn freshness_of(fence: ObservedMutationFence) -> ValidationFreshness {
    if fence == ObservedMutationFence::Crossed {
        ValidationFreshness::Stale
    } else {
        ValidationFreshness::Unproven
    }
}

/// What two moments say about the time between them.
pub open spec fn state_between(
    start: Option<FenceModel>,
    now: Option<FenceModel>,
) -> ValidationSourceState {
    ValidationSourceState {
        observed_mutation_fence: fence_between(start, now),
        freshness: freshness_of(fence_between(start, now)),
    }
}

impl ValidationSourceState {
    /// What two moments say about the time between them.
    pub fn observe(
        start: Option<&ValidationSourceFence>,
        current: Option<&ValidationSourceFence>,
    ) -> (r: ValidationSourceState)
        ensures
            r == state_between(optional_fence(start), optional_fence(current)),
    {
        let observed_mutation_fence = match (start, current) {
            (Some(start), Some(current)) => if !same_text(
                start.epoch.as_str(),
                current.epoch.as_str(),
            ) {
                ObservedMutationFence::Unknown
            } else if start.generation != current.generation {
                ObservedMutationFence::Crossed
            } else if start.quiescent && current.quiescent {
                ObservedMutationFence::Uncrossed
            } else {
                ObservedMutationFence::Unknown
            },
            _ => ObservedMutationFence::Unknown,
        };
        let freshness = match observed_mutation_fence {
            ObservedMutationFence::Crossed => ValidationFreshness::Stale,
            _ => ValidationFreshness::Unproven,
        };
        ValidationSourceState { observed_mutation_fence, freshness }
    }
}

} // verus!
