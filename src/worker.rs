//! The decisions of the background worker that checks the listener round trip.
//! The worker attaches to the managed runtime, resolves the listener proxy class,
//! constructs a proxy, resolves the bridge class, encodes the sample message and
//! has the managed side decode it. The caller performs each action and reports
//! how it went; a failure that leaves a managed exception pending is always
//! followed by clearing that exception, and then by the end of the run.
use vstd::prelude::*;
use crate::failure::Failure;
use crate::message::SAMPLE_LISTENER_ID;

verus! {

/// The classes that the worker resolves by name through the class loader.
#[derive(Clone, Copy, Debug, PartialEq, Eq, Structural)]
pub enum ClassTarget {
    /// The managed proxy that stands for a native listener.
    ListenerBridge,
    /// The managed class that decodes a message from bytes.
    NativeBridge,
}

/// The binary name of each class.
pub open spec fn class_name_of(c: ClassTarget) -> Seq<char> {
    match c {
        ClassTarget::ListenerBridge => "org/eclipse/uprotocol/streamer/service/UListenerNativeBridge"@,
        ClassTarget::NativeBridge => "org/eclipse/uprotocol/streamer/service/NativeBridge"@,
    }
}

impl ClassTarget {
    /// The binary name of this class.
    pub fn class_name(&self) -> (r: &'static str)
        ensures
            r@ == class_name_of(*self),
    {
        match self {
            ClassTarget::ListenerBridge => "org/eclipse/uprotocol/streamer/service/UListenerNativeBridge",
            ClassTarget::NativeBridge => "org/eclipse/uprotocol/streamer/service/NativeBridge",
        }
    }
}

/// Where the worker stands.
#[derive(Clone, Copy, Debug, PartialEq, Eq, Structural)]
pub enum WorkerPhase {
    Attaching,
    ResolvingListenerClass,
    ConstructingProxy,
    ResolvingBridgeClass,
    Encoding,
    Decoding,
    /// A step failed and left a managed exception pending, which is being cleared.
    Clearing(Failure),
    Succeeded,
    Aborted(Failure),
}

/// What the caller is to do next.
#[derive(Clone, Copy, Debug, PartialEq, Eq, Structural)]
pub enum WorkerAction {
    /// Attach the current thread to the managed runtime.
    AttachThread,
    /// Resolve the class through the class loader.
    LoadClass(ClassTarget),
    /// Construct a listener proxy with this correlation id.
    ConstructProxy(u64),
    /// Build the sample message and write it to bytes.
    EncodeSample,
    /// Hand the bytes to the managed decoder.
    DecodeOnManagedSide,
    /// Describe and clear the pending managed exception.
    ClearPendingException,
    /// Stop, with the run's result: `None` on success.
    Finish(Option<Failure>),
}

/// How the last action went.
#[derive(Clone, Copy, Debug, PartialEq, Eq, Structural)]
pub enum StepOutcome {
    Completed,
    Failed { pending_exception: bool },
}

/// A phase in which the worker has stopped.
pub open spec fn is_final(p: WorkerPhase) -> bool {
    p is Succeeded || p is Aborted
}

/// The kind of failure that a failed step of each phase is.
pub open spec fn failure_of(p: WorkerPhase) -> Failure {
    match p {
        WorkerPhase::Attaching => Failure::Attachment,
        WorkerPhase::ResolvingListenerClass => Failure::ClassResolution,
        WorkerPhase::ConstructingProxy => Failure::ObjectConstruction,
        WorkerPhase::ResolvingBridgeClass => Failure::ClassResolution,
        WorkerPhase::Encoding => Failure::Serialization,
        WorkerPhase::Decoding => Failure::MethodInvocation,
        WorkerPhase::Clearing(f) => f,
        WorkerPhase::Succeeded => Failure::MethodInvocation,
        WorkerPhase::Aborted(f) => f,
    }
}

/// The phase and action that follow a completed step of each working phase.
pub open spec fn on_success(p: WorkerPhase) -> (WorkerPhase, WorkerAction) {
    match p {
        WorkerPhase::Attaching => (WorkerPhase::ResolvingListenerClass, WorkerAction::LoadClass(ClassTarget::ListenerBridge)),
        WorkerPhase::ResolvingListenerClass => (WorkerPhase::ConstructingProxy, WorkerAction::ConstructProxy(SAMPLE_LISTENER_ID)),
        WorkerPhase::ConstructingProxy => (WorkerPhase::ResolvingBridgeClass, WorkerAction::LoadClass(ClassTarget::NativeBridge)),
        WorkerPhase::ResolvingBridgeClass => (WorkerPhase::Encoding, WorkerAction::EncodeSample),
        WorkerPhase::Encoding => (WorkerPhase::Decoding, WorkerAction::DecodeOnManagedSide),
        _ => (WorkerPhase::Succeeded, WorkerAction::Finish(None)),
    }
}

/// The transition of the worker on the outcome of its last action.
pub open spec fn advance_spec(p: WorkerPhase, e: StepOutcome) -> (WorkerPhase, WorkerAction) {
    match p {
        WorkerPhase::Clearing(f) => (WorkerPhase::Aborted(f), WorkerAction::Finish(Some(f))),
        _ => match e {
            StepOutcome::Completed => on_success(p),
            StepOutcome::Failed { pending_exception } => if pending_exception {
                (WorkerPhase::Clearing(failure_of(p)), WorkerAction::ClearPendingException)
            } else {
                (WorkerPhase::Aborted(failure_of(p)), WorkerAction::Finish(Some(failure_of(p))))
            },
        },
    }
}

/// How many transitions at most are left before the worker stops.
pub open spec fn steps_left(p: WorkerPhase) -> nat {
    match p {
        WorkerPhase::Attaching => 7,
        WorkerPhase::ResolvingListenerClass => 6,
        WorkerPhase::ConstructingProxy => 5,
        WorkerPhase::ResolvingBridgeClass => 4,
        WorkerPhase::Encoding => 3,
        WorkerPhase::Decoding => 2,
        WorkerPhase::Clearing(_) => 1,
        WorkerPhase::Succeeded => 0,
        WorkerPhase::Aborted(_) => 0,
    }
}

/// The first phase and action of a run.
pub fn start() -> (r: (WorkerPhase, WorkerAction))
    ensures
        r == (WorkerPhase::Attaching, WorkerAction::AttachThread),
{
    (WorkerPhase::Attaching, WorkerAction::AttachThread)
}

fn step_failure(p: WorkerPhase) -> (r: Failure)
    ensures
        r == failure_of(p),
{
    match p {
        WorkerPhase::Attaching => Failure::Attachment,
        WorkerPhase::ResolvingListenerClass => Failure::ClassResolution,
        WorkerPhase::ConstructingProxy => Failure::ObjectConstruction,
        WorkerPhase::ResolvingBridgeClass => Failure::ClassResolution,
        WorkerPhase::Encoding => Failure::Serialization,
        WorkerPhase::Decoding => Failure::MethodInvocation,
        WorkerPhase::Clearing(f) => f,
        WorkerPhase::Succeeded => Failure::MethodInvocation,
        WorkerPhase::Aborted(f) => f,
    }
}

/// The next phase and action, given how the last action went.
pub fn advance(p: WorkerPhase, e: StepOutcome) -> (r: (WorkerPhase, WorkerAction))
    requires
        !is_final(p),
    ensures
        r == advance_spec(p, e),
{
    if let WorkerPhase::Clearing(f) = p {
        return (WorkerPhase::Aborted(f), WorkerAction::Finish(Some(f)));
    }
    match e {
        StepOutcome::Completed => match p {
            WorkerPhase::Attaching => (WorkerPhase::ResolvingListenerClass, WorkerAction::LoadClass(ClassTarget::ListenerBridge)),
            WorkerPhase::ResolvingListenerClass => (WorkerPhase::ConstructingProxy, WorkerAction::ConstructProxy(SAMPLE_LISTENER_ID)),
            WorkerPhase::ConstructingProxy => (WorkerPhase::ResolvingBridgeClass, WorkerAction::LoadClass(ClassTarget::NativeBridge)),
            WorkerPhase::ResolvingBridgeClass => (WorkerPhase::Encoding, WorkerAction::EncodeSample),
            WorkerPhase::Encoding => (WorkerPhase::Decoding, WorkerAction::DecodeOnManagedSide),
            _ => (WorkerPhase::Succeeded, WorkerAction::Finish(None)),
        },
        StepOutcome::Failed { pending_exception } => {
            let f = step_failure(p);
            if pending_exception {
                (WorkerPhase::Clearing(f), WorkerAction::ClearPendingException)
            } else {
                (WorkerPhase::Aborted(f), WorkerAction::Finish(Some(f)))
            }
        },
    }
}

/// Every transition brings the worker nearer its end, so a run stops after at
/// most seven reports, and it stops exactly when it is told to finish.
pub proof fn advance_makes_progress(p: WorkerPhase, e: StepOutcome)
    requires
        !is_final(p),
    ensures
        steps_left(advance_spec(p, e).0) < steps_left(p),
        is_final(advance_spec(p, e).0) <==> advance_spec(p, e).1 is Finish,
{
}

/// A failure that leaves a managed exception pending is followed by clearing
/// it and by nothing else; after that the run ends with that failure.
pub proof fn pending_exception_cleared_first(p: WorkerPhase)
    requires
        !is_final(p),
        !(p is Clearing),
    ensures
        advance_spec(p, StepOutcome::Failed { pending_exception: true })
            == (WorkerPhase::Clearing(failure_of(p)), WorkerAction::ClearPendingException),
        forall|e: StepOutcome|
            #![trigger advance_spec(WorkerPhase::Clearing(failure_of(p)), e)]
            advance_spec(WorkerPhase::Clearing(failure_of(p)), e)
                == (WorkerPhase::Aborted(failure_of(p)), WorkerAction::Finish(Some(failure_of(p)))),
{
}

} // verus!
