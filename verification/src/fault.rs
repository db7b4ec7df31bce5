use vstd::prelude::*;

verus! {

/// The ways the resume/yield protocol can be misused. Each is a programmer
/// error: the register and stack state is no longer well defined once one
/// occurs, so none has a recovery path. The engine reports them instead of
/// continuing silently.
#[derive(Clone, Copy, Debug, PartialEq, Eq, Structural)]
pub enum ProtocolViolation {
    /// `swap` was called on a thread whose hand-off slot holds no live
    /// suspended-execution handle: the caller is not inside a coroutine.
    NotInsideCoroutine,
    /// A routine was resumed while its handle was absent, that is while it
    /// was already running: a re-entrant or concurrent resume.
    NoContextToResume,
    /// The trampoline began running but found no pending body in the
    /// hand-off slot to bootstrap.
    BootstrapClosureMissing,
}

impl ProtocolViolation {
    /// A fixed description of the violation.
    pub fn message(self) -> (m: &'static str)
        ensures
            self is NotInsideCoroutine ==> m@ == "not inside a coroutine"@,
            self is NoContextToResume ==> m@ == "routine has no context to resume"@,
            self is BootstrapClosureMissing ==> m@ == "bootstrap closure missing"@,
    {
        match self {
            ProtocolViolation::NotInsideCoroutine => "not inside a coroutine",
            ProtocolViolation::NoContextToResume => "routine has no context to resume",
            ProtocolViolation::BootstrapClosureMissing => "bootstrap closure missing",
        }
    }
}

} // verus!
