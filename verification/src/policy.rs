//! What happens when a pending marker is dropped.
//!
//! Dropping a marker that was never disposed of is the one error this crate
//! knows. How it is reported is a matter of policy, fixed once per build. This
//! module holds the decisions: which policy a build gets, whether the policy
//! looks at the unwinding state of the current thread, and what the reaction
//! is. Carrying the reaction out (raising, writing a log record) is left to
//! the destructor that asks.
//!
//! None of the functions here unwinds, so all of them may be called from a
//! destructor.

use vstd::prelude::*;

verus! {

/// The message of the error, whether it is raised or logged.
pub const MESSAGE: &'static str = "Values of this type can't be dropped!";

/// How a dropped marker is reported.
#[derive(Clone, Copy, Debug, PartialEq, Eq, Structural)]
pub enum Policy {
    /// Raise the error, unless the thread is already unwinding: a second
    /// failure would hide the first one, or abort the process.
    Fatal,
    /// Write one error-level log record and go on. Never raises.
    Diagnostic,
    /// Raise the error whatever the context. For builds that can neither log
    /// nor tell whether the thread is unwinding.
    Minimal,
}

/// What the destructor of a dropped marker has to do.
#[derive(Clone, Copy, Debug, PartialEq, Eq, Structural)]
pub enum Reaction {
    /// Nothing at all.
    Silent,
    /// Raise a failure that unwinds, with [`MESSAGE`].
    Raise,
    /// Write one log record of level error, with [`MESSAGE`], and return.
    Log,
}

impl Policy {
    /// The policy of a build that has (`logging`) or lacks a log sink, and
    /// that can (`unwind_state`) or cannot tell whether a thread is unwinding.
    pub open spec fn spec_select(logging: bool, unwind_state: bool) -> Policy {
        if logging {
            Policy::Diagnostic
        } else if unwind_state {
            Policy::Fatal
        } else {
            Policy::Minimal
        }
    }

    /// Picks the policy of a build. Logging wins where it is there; without it
    /// the error is raised, with regard to the unwinding state where that can
    /// be had.
    #[verifier::when_used_as_spec(spec_select)]
    pub fn select(logging: bool, unwind_state: bool) -> (policy: Policy)
        ensures
            policy == Policy::spec_select(logging, unwind_state),
            policy is Diagnostic <==> logging,
            policy is Fatal <==> !logging && unwind_state,
            policy is Minimal <==> !logging && !unwind_state,
        no_unwind
    {
        if logging {
            Policy::Diagnostic
        } else if unwind_state {
            Policy::Fatal
        } else {
            Policy::Minimal
        }
    }

    /// Whether the reaction under this policy depends on the unwinding state.
    pub open spec fn spec_consults_unwinding(self) -> bool {
        self is Fatal
    }

    /// Whether the destructor has to find out if the thread is unwinding
    /// before it asks for the reaction. Where this is `false`, it may pass
    /// either value (see [`lemma_unwinding_ignored_unless_consulted`]).
    #[verifier::when_used_as_spec(spec_consults_unwinding)]
    pub fn consults_unwinding(self) -> (consults: bool)
        ensures
            consults == self.spec_consults_unwinding(),
        no_unwind
    {
        match self {
            Policy::Fatal => true,
            Policy::Diagnostic | Policy::Minimal => false,
        }
    }

    /// The reaction to a dropped marker under this policy, in a context that
    /// is (`unwinding`) or is not already unwinding from another failure.
    pub open spec fn spec_reaction(self, unwinding: bool) -> Reaction {
        match self {
            Policy::Fatal => if unwinding {
                Reaction::Silent
            } else {
                Reaction::Raise
            },
            Policy::Diagnostic => Reaction::Log,
            Policy::Minimal => Reaction::Raise,
        }
    }

    /// Decides what the destructor of a dropped marker does.
    ///
    /// `unwinding` says whether the current thread is already unwinding. It
    /// is the state of that thread alone: failures of other threads do not
    /// count.
    #[verifier::when_used_as_spec(spec_reaction)]
    pub fn reaction(self, unwinding: bool) -> (reaction: Reaction)
        ensures
            reaction == self.spec_reaction(unwinding),
            self is Fatal && !unwinding ==> reaction is Raise,
            self is Fatal && unwinding ==> reaction is Silent,
            self is Diagnostic ==> reaction is Log,
            self is Minimal ==> reaction is Raise,
        no_unwind
    {
        match self {
            Policy::Fatal => if unwinding {
                Reaction::Silent
            } else {
                Reaction::Raise
            },
            Policy::Diagnostic => Reaction::Log,
            Policy::Minimal => Reaction::Raise,
        }
    }
}

impl Default for Policy {
    /// The fatal policy.
    fn default() -> (policy: Policy)
        ensures
            policy is Fatal,
    {
        Policy::Fatal
    }
}

/// Outside of unwinding no policy lets a dropped marker pass: the error is
/// raised or logged.
pub proof fn lemma_drop_is_reported(policy: Policy)
    ensures
        policy.reaction(false) is Raise || policy.reaction(false) is Log,
{
}

/// While the thread is unwinding, a dropped marker raises no second failure,
/// under every policy but the minimal one, which cannot know of the first.
pub proof fn lemma_no_raise_while_unwinding(policy: Policy)
    requires
        !(policy is Minimal),
    ensures
        !(policy.reaction(true) is Raise),
{
}

/// A policy that does not consult the unwinding state reacts in the same way
/// in either context.
pub proof fn lemma_unwinding_ignored_unless_consulted(policy: Policy, unwinding: bool)
    requires
        !policy.consults_unwinding(),
    ensures
        policy.reaction(unwinding) == policy.reaction(!unwinding),
{
}

/// The policy that a build gets consults the unwinding state only where the
/// build can tell it, and raises only where the build cannot log.
pub proof fn lemma_selected_policy_fits_build(logging: bool, unwind_state: bool, unwinding: bool)
    ensures
        Policy::select(logging, unwind_state).consults_unwinding() ==> unwind_state,
        Policy::select(logging, unwind_state).reaction(unwinding) is Raise ==> !logging,
        Policy::select(logging, unwind_state).reaction(unwinding) is Log <==> logging,
{
}

} // verus!
