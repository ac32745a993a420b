use vstd::prelude::*;
use crate::error::CaptureError;

verus! {

/// The four operating-system steps of opening a session, in order.
#[derive(Clone, Copy, Debug, PartialEq, Eq, Structural)]
pub enum OpenStep {
    /// Take a reference to the protocol stack, initialising it if needed.
    InitStack,
    /// Create a raw socket that asks for header-included delivery.
    CreateSocket,
    /// Set the socket option that turns header-included mode on.
    EnableHeaderIncluded { handle: usize },
    /// Bind the socket to the wildcard address.
    Bind { handle: usize },
}

/// How the last step went.
#[derive(Clone, Copy, Debug, PartialEq, Eq, Structural)]
pub enum StepOutcome {
    /// The step succeeded.
    Done,
    /// The socket was created with this handle.
    SocketCreated { handle: usize },
    /// The step failed with this operating-system error code.
    Failed { code: i32 },
}

/// What the caller must do next on behalf of an opening session.
#[derive(Clone, Copy, Debug, PartialEq, Eq, Structural)]
pub enum OpenAction {
    /// Perform this step and report its outcome.
    Perform { step: OpenStep },
    /// The open failed: close the socket if one is named, give the stack
    /// reference back if asked, and report the error.
    Abort { close_socket: Option<usize>, release_stack: bool, error: CaptureError },
    /// The session is open on this socket; it now owns the socket and the
    /// stack reference.
    Opened { handle: usize },
    /// The open is over; nothing is left to do.
    Idle,
}

/// How far an open has come, and which resources it holds.
#[derive(Clone, Copy, Debug, PartialEq, Eq, Structural)]
pub enum OpenStage {
    /// The stack reference is being taken.
    Starting,
    /// The stack is held; the socket is being created.
    StackHeld,
    /// The socket exists; header-included mode is being set.
    SocketHeld { handle: usize },
    /// The socket is configured; it is being bound.
    Configured { handle: usize },
    /// The open succeeded or failed; the stage holds nothing.
    Finished,
}

/// The socket that a stage holds.
pub open spec fn held_socket(stage: OpenStage) -> Option<usize> {
    match stage {
        OpenStage::SocketHeld { handle } => Some(handle),
        OpenStage::Configured { handle } => Some(handle),
        _ => None,
    }
}

/// Whether a stage holds a reference to the protocol stack.
pub open spec fn holds_stack(stage: OpenStage) -> bool {
    match stage {
        OpenStage::StackHeld | OpenStage::SocketHeld { .. } | OpenStage::Configured { .. } => true,
        _ => false,
    }
}

/// Giving up at `stage` with `error`: every resource the stage holds is released.
pub open spec fn abort_at(stage: OpenStage, error: CaptureError) -> (OpenStage, OpenAction) {
    (
        OpenStage::Finished,
        OpenAction::Abort {
            close_socket: held_socket(stage),
            release_stack: holds_stack(stage),
            error,
        },
    )
}

/// One transition of the open sequence. An outcome that does not answer the
/// pending step leaves the stage as it is and asks for that step again.
pub open spec fn open_step(stage: OpenStage, outcome: StepOutcome) -> (OpenStage, OpenAction) {
    match stage {
        OpenStage::Starting => match outcome {
            StepOutcome::Done => (
                OpenStage::StackHeld,
                OpenAction::Perform { step: OpenStep::CreateSocket },
            ),
            StepOutcome::Failed { code } => abort_at(stage, CaptureError::StackInitFailed { code }),
            _ => (stage, OpenAction::Perform { step: OpenStep::InitStack }),
        },
        OpenStage::StackHeld => match outcome {
            StepOutcome::SocketCreated { handle } => (
                OpenStage::SocketHeld { handle },
                OpenAction::Perform { step: OpenStep::EnableHeaderIncluded { handle } },
            ),
            StepOutcome::Failed { code } => abort_at(
                stage,
                CaptureError::SocketCreateFailed { code },
            ),
            _ => (stage, OpenAction::Perform { step: OpenStep::CreateSocket }),
        },
        OpenStage::SocketHeld { handle } => match outcome {
            StepOutcome::Done => (
                OpenStage::Configured { handle },
                OpenAction::Perform { step: OpenStep::Bind { handle } },
            ),
            StepOutcome::Failed { code } => abort_at(
                stage,
                CaptureError::SocketOptionFailed { code },
            ),
            _ => (stage, OpenAction::Perform { step: OpenStep::EnableHeaderIncluded { handle } }),
        },
        OpenStage::Configured { handle } => match outcome {
            StepOutcome::Done => (OpenStage::Finished, OpenAction::Opened { handle }),
            StepOutcome::Failed { code } => abort_at(stage, CaptureError::BindFailed { code }),
            _ => (stage, OpenAction::Perform { step: OpenStep::Bind { handle } }),
        },
        OpenStage::Finished => (stage, OpenAction::Idle),
    }
}

/// Drives the opening of one capture session through its four steps.
pub struct SessionOpener {
    pub stage: OpenStage,
}

impl SessionOpener {
    /// An opener at its first step, with the action to perform.
    pub fn new() -> (r: (SessionOpener, OpenAction))
        ensures
            r.0.stage == OpenStage::Starting,
            r.1 == (OpenAction::Perform { step: OpenStep::InitStack }),
    {
        (SessionOpener { stage: OpenStage::Starting }, OpenAction::Perform { step: OpenStep::InitStack })
    }

    fn abort(&mut self, error: CaptureError) -> (r: OpenAction)
        ensures
            (final(self).stage, r) == abort_at(old(self).stage, error),
    {
        let (close_socket, release_stack) = match self.stage {
            OpenStage::Starting => (None, false),
            OpenStage::StackHeld => (None, true),
            OpenStage::SocketHeld { handle } => (Some(handle), true),
            OpenStage::Configured { handle } => (Some(handle), true),
            OpenStage::Finished => (None, false),
        };
        self.stage = OpenStage::Finished;
        OpenAction::Abort { close_socket, release_stack, error }
    }

    /// Takes the outcome of the last step and returns the next action.
    pub fn step(&mut self, outcome: StepOutcome) -> (r: OpenAction)
        ensures
            (final(self).stage, r) == open_step(old(self).stage, outcome),
    {
        match self.stage {
            OpenStage::Starting => match outcome {
                StepOutcome::Done => {
                    self.stage = OpenStage::StackHeld;
                    OpenAction::Perform { step: OpenStep::CreateSocket }
                },
                StepOutcome::Failed { code } => self.abort(CaptureError::StackInitFailed { code }),
                _ => OpenAction::Perform { step: OpenStep::InitStack },
            },
            OpenStage::StackHeld => match outcome {
                StepOutcome::SocketCreated { handle } => {
                    self.stage = OpenStage::SocketHeld { handle };
                    OpenAction::Perform { step: OpenStep::EnableHeaderIncluded { handle } }
                },
                StepOutcome::Failed { code } => self.abort(
                    CaptureError::SocketCreateFailed { code },
                ),
                _ => OpenAction::Perform { step: OpenStep::CreateSocket },
            },
            OpenStage::SocketHeld { handle } => match outcome {
                StepOutcome::Done => {
                    self.stage = OpenStage::Configured { handle };
                    OpenAction::Perform { step: OpenStep::Bind { handle } }
                },
                StepOutcome::Failed { code } => self.abort(
                    CaptureError::SocketOptionFailed { code },
                ),
                _ => OpenAction::Perform { step: OpenStep::EnableHeaderIncluded { handle } },
            },
            OpenStage::Configured { handle } => match outcome {
                StepOutcome::Done => {
                    self.stage = OpenStage::Finished;
                    OpenAction::Opened { handle }
                },
                StepOutcome::Failed { code } => self.abort(CaptureError::BindFailed { code }),
                _ => OpenAction::Perform { step: OpenStep::Bind { handle } },
            },
            OpenStage::Finished => OpenAction::Idle,
        }
    }
}

/// Whenever an open gives up, every resource held at that stage is named for
/// release and the opener is left holding nothing; when it succeeds, the socket
/// it held is the one handed to the session.
pub proof fn lemma_open_never_leaks(stage: OpenStage, outcome: StepOutcome)
    ensures
        ({
            let (next, action) = open_step(stage, outcome);
            &&& action matches OpenAction::Abort { close_socket, release_stack, .. } ==> {
                &&& close_socket == held_socket(stage)
                &&& release_stack == holds_stack(stage)
                &&& held_socket(next) is None
                &&& !holds_stack(next)
            }
            &&& action matches OpenAction::Opened { handle } ==> held_socket(stage) == Some(
                handle,
            ) && holds_stack(stage)
        }),
{
}

/// When the operating system rejects the bind, the open fails with
/// `BindFailed` carrying its code, the socket that was created is closed and
/// the stack reference that was taken is given back: nothing stays open.
pub proof fn lemma_bind_rejected(handle: usize, code: i32)
    ensures
        ({
            let (s1, a1) = open_step(OpenStage::Starting, StepOutcome::Done);
            let (s2, a2) = open_step(s1, StepOutcome::SocketCreated { handle });
            let (s3, a3) = open_step(s2, StepOutcome::Done);
            let (s4, a4) = open_step(s3, StepOutcome::Failed { code });
            &&& a1 == (OpenAction::Perform { step: OpenStep::CreateSocket })
            &&& a2 == (OpenAction::Perform { step: OpenStep::EnableHeaderIncluded { handle } })
            &&& a3 == (OpenAction::Perform { step: OpenStep::Bind { handle } })
            &&& a4 == (OpenAction::Abort {
                close_socket: Some(handle),
                release_stack: true,
                error: CaptureError::BindFailed { code },
            })
            &&& held_socket(s4) is None
            &&& !holds_stack(s4)
        }),
{
}

/// A capture session in mathematical terms.
pub struct SessionView {
    pub handle: usize,
    pub bound_interface: Seq<char>,
    pub header_included: bool,
    pub open: bool,
}

/// An open raw socket bound for one interface. Closing it releases the socket
/// once; later closes do nothing.
pub struct CaptureSession {
    handle: usize,
    bound_interface: String,
    header_included: bool,
    open: bool,
}

impl View for CaptureSession {
    type V = SessionView;

    closed spec fn view(&self) -> SessionView {
        SessionView {
            handle: self.handle,
            bound_interface: self.bound_interface@,
            header_included: self.header_included,
            open: self.open,
        }
    }
}

/// The session after a close: no longer open, all else as it was.
pub open spec fn after_close(s: SessionView) -> SessionView {
    SessionView { open: false, ..s }
}

/// The socket a close hands back for release: the session's own while it is
/// open, none once it is closed.
pub open spec fn released_by_close(s: SessionView) -> Option<usize> {
    if s.open {
        Some(s.handle)
    } else {
        None
    }
}

impl CaptureSession {
    /// The session that an open ending in `OpenAction::Opened { handle }` yields,
    /// in header-included mode.
    pub fn opened(handle: usize, bound_interface: String) -> (r: CaptureSession)
        ensures
            r@ == (SessionView {
                handle,
                bound_interface: bound_interface@,
                header_included: true,
                open: true,
            }),
    {
        CaptureSession { handle, bound_interface, header_included: true, open: true }
    }

    pub fn handle(&self) -> (r: usize)
        ensures
            r == self@.handle,
    {
        self.handle
    }

    pub fn bound_interface(&self) -> (r: &String)
        ensures
            r@ == self@.bound_interface,
    {
        &self.bound_interface
    }

    pub fn header_included(&self) -> (r: bool)
        ensures
            r == self@.header_included,
    {
        self.header_included
    }

    pub fn is_open(&self) -> (r: bool)
        ensures
            r == self@.open,
    {
        self.open
    }

    /// Closes the session. Returns the socket the caller must close, after which
    /// it gives the session's stack reference back; `None` when the session was
    /// already closed, in which case nothing changes.
    pub fn close(&mut self) -> (r: Option<usize>)
        ensures
            final(self)@ == after_close(old(self)@),
            r == released_by_close(old(self)@),
    {
        if self.open {
            self.open = false;
            Some(self.handle)
        } else {
            None
        }
    }
}

/// Closing twice: the second close releases nothing and changes nothing.
pub proof fn lemma_close_idempotent(s: SessionView)
    ensures
        after_close(after_close(s)) == after_close(s),
        released_by_close(after_close(s)) is None,
{
}

} // verus!
