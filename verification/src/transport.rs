//! What to do once a command has been handed to the serial link.
//!
//! A write either goes through, runs into the link's short timeout, or fails
//! in some other way. A timeout drops the command and the plot goes on; this
//! is a known loss of data and it is kept on purpose. Any other failure is
//! reported and, unless the caller asks for strictness, passed over as well.

use vstd::prelude::*;

verus! {

/// What became of one write.
#[derive(Debug, Clone, Copy, PartialEq, Eq, Structural)]
pub enum WriteOutcome {
    /// The bytes were accepted.
    Written,
    /// The link's timeout ran out first.
    Timeout,
    /// The write failed for any other reason, such as a closed port.
    OtherError,
}

/// How failures other than a timeout are treated.
#[derive(Debug, Clone, Copy, PartialEq, Eq, Structural)]
pub enum FailurePolicy {
    /// Report the failure and go on with the next command.
    Lenient,
    /// Report the failure and stop the plot.
    Strict,
}

/// What the driver does after a write.
#[derive(Debug, Clone, Copy, PartialEq, Eq, Structural)]
pub enum Reaction {
    /// Nothing to report; go on.
    Proceed,
    /// Report the lost command, then go on.
    LogAndProceed,
    /// Report the failure and send nothing more.
    LogAndStop,
}

/// The reaction that `policy` prescribes for `outcome`.
pub open spec fn reaction_to(policy: FailurePolicy, outcome: WriteOutcome) -> Reaction {
    match outcome {
        WriteOutcome::Written => Reaction::Proceed,
        WriteOutcome::Timeout => Reaction::LogAndProceed,
        WriteOutcome::OtherError => match policy {
            FailurePolicy::Lenient => Reaction::LogAndProceed,
            FailurePolicy::Strict => Reaction::LogAndStop,
        },
    }
}

/// Decides what follows a write.
pub fn react(policy: FailurePolicy, outcome: WriteOutcome) -> (reaction: Reaction)
    ensures
        reaction == reaction_to(policy, outcome),
        reaction is LogAndStop <==> policy is Strict && outcome is OtherError,
        reaction is Proceed <==> outcome is Written,
{
    match outcome {
        WriteOutcome::Written => Reaction::Proceed,
        WriteOutcome::Timeout => Reaction::LogAndProceed,
        WriteOutcome::OtherError => match policy {
            FailurePolicy::Lenient => Reaction::LogAndProceed,
            FailurePolicy::Strict => Reaction::LogAndStop,
        },
    }
}

} // verus!
