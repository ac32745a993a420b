use vstd::prelude::*;

verus! {

/// What the caller must do when a session asks for the protocol stack.
#[derive(Clone, Copy, Debug, PartialEq, Eq, Structural)]
pub enum StackAcquire {
    /// No session holds the stack: initialise it, then report through
    /// `StackRegistry::initialized`.
    Initialize,
    /// The stack is already up; the session now holds a reference to it.
    Shared,
}

/// What the caller must do when a session gives the protocol stack back.
#[derive(Clone, Copy, Debug, PartialEq, Eq, Structural)]
pub enum StackRelease {
    /// That was the last reference: tear the stack down.
    Cleanup,
    /// Other sessions still hold the stack.
    Keep,
}

/// Reference count of the process-wide protocol stack.
///
/// The stack is initialised when the first session asks for it and torn down
/// when the last one releases it. One registry serves the whole process; the
/// caller serialises access to it.
pub struct StackRegistry {
    sessions: u64,
}

impl StackRegistry {
    /// How many sessions hold the stack.
    pub closed spec fn holders(&self) -> nat {
        self.sessions as nat
    }

    /// A registry for a process in which the stack is not up.
    pub fn new() -> (r: StackRegistry)
        ensures
            r.holders() == 0,
    {
        StackRegistry { sessions: 0 }
    }

    /// How many sessions hold the stack.
    pub fn holder_count(&self) -> (r: u64)
        ensures
            r == self.holders(),
    {
        self.sessions
    }

    /// A session asks for the stack. When nobody holds it, the caller must
    /// initialise it first and the count is unchanged until it reports back;
    /// otherwise the session joins the holders.
    pub fn acquire(&mut self) -> (r: StackAcquire)
        requires
            old(self).holders() < u64::MAX,
        ensures
            old(self).holders() == 0 ==> r == StackAcquire::Initialize && final(self).holders() == 0,
            old(self).holders() > 0 ==> r == StackAcquire::Shared && final(self).holders()
                == old(self).holders() + 1,
    {
        if self.sessions == 0 {
            StackAcquire::Initialize
        } else {
            self.sessions = self.sessions + 1;
            StackAcquire::Shared
        }
    }

    /// The caller reports how the initialisation it was asked for went: on
    /// success the asking session holds the stack; the operating system's
    /// error code is passed back unchanged.
    pub fn initialized(&mut self, outcome: Result<(), i32>) -> (r: Result<(), i32>)
        requires
            old(self).holders() < u64::MAX,
        ensures
            r == outcome,
            outcome is Ok ==> final(self).holders() == old(self).holders() + 1,
            outcome is Err ==> final(self).holders() == old(self).holders(),
    {
        if outcome.is_ok() {
            self.sessions = self.sessions + 1;
        }
        outcome
    }

    /// A session gives its reference back; the last one out tears the stack down.
    pub fn release(&mut self) -> (r: StackRelease)
        requires
            old(self).holders() > 0,
        ensures
            final(self).holders() == old(self).holders() - 1,
            (r == StackRelease::Cleanup) == (final(self).holders() == 0),
    {
        self.sessions = self.sessions - 1;
        if self.sessions == 0 {
            StackRelease::Cleanup
        } else {
            StackRelease::Keep
        }
    }
}

} // verus!
