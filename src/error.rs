use vstd::prelude::*;

verus! {

/// Why a session could not be opened or a capture loop stopped early.
///
/// Every variant carries the numeric error code reported by the operating system.
#[derive(Clone, Copy, Debug, PartialEq, Eq, Structural)]
pub enum CaptureError {
    StackInitFailed { code: i32 },
    SocketCreateFailed { code: i32 },
    SocketOptionFailed { code: i32 },
    BindFailed { code: i32 },
    PollFailed { code: i32 },
    ReceiveFailed { code: i32 },
}

impl CaptureError {
    pub open spec fn spec_code(self) -> i32 {
        match self {
            CaptureError::StackInitFailed { code } => code,
            CaptureError::SocketCreateFailed { code } => code,
            CaptureError::SocketOptionFailed { code } => code,
            CaptureError::BindFailed { code } => code,
            CaptureError::PollFailed { code } => code,
            CaptureError::ReceiveFailed { code } => code,
        }
    }

    /// The operating-system error code carried by this error.
    pub fn code(&self) -> (r: i32)
        ensures
            r == self.spec_code(),
    {
        match self {
            CaptureError::StackInitFailed { code } => *code,
            CaptureError::SocketCreateFailed { code } => *code,
            CaptureError::SocketOptionFailed { code } => *code,
            CaptureError::BindFailed { code } => *code,
            CaptureError::PollFailed { code } => *code,
            CaptureError::ReceiveFailed { code } => *code,
        }
    }
}

} // verus!
