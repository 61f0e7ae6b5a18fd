//! The kinds of failure that a call across the managed boundary can end in.
use vstd::prelude::*;

verus! {

/// What went wrong, by the step of the boundary protocol that failed.
#[derive(Clone, Copy, Debug, PartialEq, Eq, Structural)]
pub enum Failure {
    /// A call-scoped reference could not be promoted to one of independent lifetime.
    HandlePromotion,
    /// The worker thread could not attach itself to the managed runtime.
    Attachment,
    /// A class could not be resolved by name through the class loader.
    ClassResolution,
    /// A managed object could not be constructed.
    ObjectConstruction,
    /// A managed method call failed or left an exception pending.
    MethodInvocation,
    /// The message could not be built or written to bytes.
    Serialization,
}

/// The text that names each kind of failure.
pub open spec fn failure_text(f: Failure) -> Seq<char> {
    match f {
        Failure::HandlePromotion => "handle promotion failed"@,
        Failure::Attachment => "thread attachment failed"@,
        Failure::ClassResolution => "class resolution failed"@,
        Failure::ObjectConstruction => "object construction failed"@,
        Failure::MethodInvocation => "method invocation failed"@,
        Failure::Serialization => "message serialization failed"@,
    }
}

impl Failure {
    /// The text that names this kind of failure.
    pub fn describe(&self) -> (r: &'static str)
        ensures
            r@ == failure_text(*self),
    {
        match self {
            Failure::HandlePromotion => "handle promotion failed",
            Failure::Attachment => "thread attachment failed",
            Failure::ClassResolution => "class resolution failed",
            Failure::ObjectConstruction => "object construction failed",
            Failure::MethodInvocation => "method invocation failed",
            Failure::Serialization => "message serialization failed",
        }
    }
}

} // verus!
