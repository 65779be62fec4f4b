//! The life of the loader: from a dormant image to live hooks with published
//! deny tables, and back.
//!
//! The loader's work is done outside; what is decided here is which step
//! follows which outcome. The caller performs a step, reports whether it
//! went well, and is told what comes next.

use vstd::prelude::*;

verus! {

/// Exit status of a clean shutdown.
pub const EXIT_CLEAN: u8 = 0;

/// Exit status of a run that ended on a failed step.
pub const EXIT_FAILED: u8 = 1;

/// Where the IPv4 deny table is published.
pub const BLOCKLIST_V4_PATH: &'static str = "/sys/fs/bpf/blocklist_v4";

/// Where the IPv6 deny table is published.
pub const BLOCKLIST_V6_PATH: &'static str = "/sys/fs/bpf/blocklist_v6";

/// The kinds of failure a loader can meet.
#[derive(Clone, Copy, Debug, PartialEq, Eq, Structural)]
pub enum LoaderError {
    /// The image is malformed.
    Load,
    /// The image breaks the safety rules of the place it is to run in.
    Verification,
    /// The interface is missing or its attach point is taken.
    Attach,
    /// A deny table could not be published.
    Publish,
    /// Waiting for the request to end failed.
    Signal,
    /// A deny table could not be withdrawn.
    Unpublish,
}

/// One step of the loader's work.
#[derive(Clone, Copy, Debug, PartialEq, Eq, Structural)]
pub enum Step {
    /// Load the image that holds both hooks.
    Load,
    /// Bind the ingress hook to the interface's receive path.
    AttachIngress,
    /// Bind the egress hook to the interface's transmit path.
    AttachEgress,
    /// Publish the IPv4 deny table at its path.
    PublishV4,
    /// Publish the IPv6 deny table at its path.
    PublishV6,
    /// Wait for the request to end.
    Wait,
    /// Withdraw the IPv4 deny table.
    UnpublishV4,
    /// Withdraw the IPv6 deny table.
    UnpublishV6,
}

/// Where the loader stands.
#[derive(Clone, Copy, Debug, PartialEq, Eq, Structural)]
pub enum Phase {
    /// The given step is to be performed next.
    Run(Step),
    /// The loader has shut down cleanly.
    Finished,
    /// The loader has given up because the given step failed.
    Failed(Step),
}

/// What follows a step.
#[derive(Clone, Copy, Debug, PartialEq, Eq, Structural)]
pub struct Move {
    /// Where the loader stands now.
    pub next: Phase,
    /// Whether the step failed in a way that is only to be reported.
    pub warn: bool,
}

/// Whether `step` belongs to the teardown, where a failure is reported and
/// the work goes on.
pub open spec fn is_teardown(step: Step) -> bool {
    step == Step::UnpublishV4 || step == Step::UnpublishV6
}

/// The step that follows `step` when the work goes on, if there is one.
pub open spec fn successor(step: Step) -> Option<Step> {
    match step {
        Step::Load => Some(Step::AttachIngress),
        Step::AttachIngress => Some(Step::AttachEgress),
        Step::AttachEgress => Some(Step::PublishV4),
        Step::PublishV4 => Some(Step::PublishV6),
        Step::PublishV6 => Some(Step::Wait),
        Step::Wait => Some(Step::UnpublishV4),
        Step::UnpublishV4 => Some(Step::UnpublishV6),
        Step::UnpublishV6 => None,
    }
}

/// Where the loader stands after `step` went well (`ok`) or did not.
pub open spec fn phase_after(step: Step, ok: bool) -> Phase {
    if ok || is_teardown(step) {
        match successor(step) {
            Some(next) => Phase::Run(next),
            None => Phase::Finished,
        }
    } else {
        Phase::Failed(step)
    }
}

/// The exit status that a phase stands for; a loader still at work has none.
pub open spec fn status_of(phase: Phase) -> Option<u8> {
    match phase {
        Phase::Run(_) => None,
        Phase::Finished => Some(EXIT_CLEAN),
        Phase::Failed(_) => Some(EXIT_FAILED),
    }
}

/// The path at which `step` publishes or withdraws a deny table; a step that
/// does neither has none.
pub open spec fn path_of(step: Step) -> Option<&'static str> {
    match step {
        Step::PublishV4 | Step::UnpublishV4 => Some(BLOCKLIST_V4_PATH),
        Step::PublishV6 | Step::UnpublishV6 => Some(BLOCKLIST_V6_PATH),
        _ => None,
    }
}

/// The kind of failure that a failed `step` stands for. A failed load is a
/// verification error if the image was `rejected` as unsafe, and a load
/// error otherwise.
pub open spec fn error_of(step: Step, rejected: bool) -> LoaderError {
    match step {
        Step::Load => if rejected {
            LoaderError::Verification
        } else {
            LoaderError::Load
        },
        Step::AttachIngress | Step::AttachEgress => LoaderError::Attach,
        Step::PublishV4 | Step::PublishV6 => LoaderError::Publish,
        Step::Wait => LoaderError::Signal,
        Step::UnpublishV4 | Step::UnpublishV6 => LoaderError::Unpublish,
    }
}

/// The path at which `step` publishes or withdraws a deny table.
pub fn table_path(step: Step) -> (path: Option<&'static str>)
    ensures
        path == path_of(step),
{
    match step {
        Step::PublishV4 | Step::UnpublishV4 => Some(BLOCKLIST_V4_PATH),
        Step::PublishV6 | Step::UnpublishV6 => Some(BLOCKLIST_V6_PATH),
        _ => None,
    }
}

/// Names the kind of failure that a failed `step` stands for.
pub fn classify_failure(step: Step, rejected: bool) -> (e: LoaderError)
    ensures
        e == error_of(step, rejected),
{
    match step {
        Step::Load => if rejected {
            LoaderError::Verification
        } else {
            LoaderError::Load
        },
        Step::AttachIngress | Step::AttachEgress => LoaderError::Attach,
        Step::PublishV4 | Step::PublishV6 => LoaderError::Publish,
        Step::Wait => LoaderError::Signal,
        Step::UnpublishV4 | Step::UnpublishV6 => LoaderError::Unpublish,
    }
}

/// The first step of every run.
pub fn start() -> (p: Phase)
    ensures
        p == Phase::Run(Step::Load),
{
    Phase::Run(Step::Load)
}

/// Decides what follows `step`.
///
/// Up to and including the wait, a failed step ends the run. During the
/// teardown a failed step is reported and the next table is still
/// withdrawn.
pub fn advance(step: Step, ok: bool) -> (m: Move)
    ensures
        m.next == phase_after(step, ok),
        m.warn == (!ok && is_teardown(step)),
{
    let teardown = match step {
        Step::UnpublishV4 => true,
        Step::UnpublishV6 => true,
        _ => false,
    };
    if ok || teardown {
        let next = match step {
            Step::Load => Phase::Run(Step::AttachIngress),
            Step::AttachIngress => Phase::Run(Step::AttachEgress),
            Step::AttachEgress => Phase::Run(Step::PublishV4),
            Step::PublishV4 => Phase::Run(Step::PublishV6),
            Step::PublishV6 => Phase::Run(Step::Wait),
            Step::Wait => Phase::Run(Step::UnpublishV4),
            Step::UnpublishV4 => Phase::Run(Step::UnpublishV6),
            Step::UnpublishV6 => Phase::Finished,
        };
        Move { next, warn: !ok }
    } else {
        Move { next: Phase::Failed(step), warn: false }
    }
}

/// The exit status of a loader that has stopped.
pub fn exit_status(phase: Phase) -> (code: Option<u8>)
    ensures
        code == status_of(phase),
{
    match phase {
        Phase::Run(_) => None,
        Phase::Finished => Some(EXIT_CLEAN),
        Phase::Failed(_) => Some(EXIT_FAILED),
    }
}

/// Once the request to end has come, both tables are withdrawn in turn and
/// the loader shuts down cleanly, whether or not either withdrawal went
/// well.
pub proof fn lemma_teardown_completes(first_ok: bool, second_ok: bool)
    ensures
        phase_after(Step::Wait, true) == Phase::Run(Step::UnpublishV4),
        phase_after(Step::UnpublishV4, first_ok) == Phase::Run(Step::UnpublishV6),
        phase_after(Step::UnpublishV6, second_ok) == Phase::Finished,
        status_of(Phase::Finished) == Some(EXIT_CLEAN),
{
}

/// A step before the teardown that fails ends the run with a status other
/// than that of a clean shutdown.
pub proof fn lemma_failure_is_fatal(step: Step)
    requires
        !is_teardown(step),
    ensures
        phase_after(step, false) == Phase::Failed(step),
        status_of(phase_after(step, false)) is Some,
        status_of(phase_after(step, false)) != Some(EXIT_CLEAN),
{
}

} // verus!
