//! What makes the sidecar give up.

use crate::text::joined;
use vstd::prelude::*;
use vstd::string::*;

verus! {

/// A reason to give up.
#[derive(Debug)]
pub enum SidecarError {
    /// Input ended while an approval was awaited.
    InputClosed,
    /// A line that came while an approval was awaited is no JSON; holds the reader's error.
    ApprovalMessage(String),
    /// A message that came while an approval was awaited has an `id` that is no identifier.
    ApprovalId(String),
    /// The host answered the approval request with an error; holds its message.
    ApprovalRejected(String),
    /// The host's answer has neither a result nor an error.
    ApprovalResultMissing,
    /// The result of the host's answer cannot be read.
    ApprovalResult(String),
    /// The request of an exec wrapper is no UTF-8.
    WrapperRequestBytes(String),
    /// The request of an exec wrapper cannot be read.
    WrapperRequest(String),
    /// The exec wrapper was started without a target.
    WrapperTargetMissing,
    /// The exec wrapper was started without a socket path that can be read.
    WrapperSocketMissing(String),
    /// The exec wrapper cannot connect to its socket.
    WrapperConnection { socket_path: String, cause: String },
    /// The answer to the exec wrapper cannot be read.
    WrapperResponse(String),
    /// Exec wrappers need Unix sockets.
    WrapperUnsupported,
}

/// The values of a reason to give up.
pub enum ErrorView {
    InputClosed,
    ApprovalMessage(Seq<char>),
    ApprovalId(Seq<char>),
    ApprovalRejected(Seq<char>),
    ApprovalResultMissing,
    ApprovalResult(Seq<char>),
    WrapperRequestBytes(Seq<char>),
    WrapperRequest(Seq<char>),
    WrapperTargetMissing,
    WrapperSocketMissing(Seq<char>),
    WrapperConnection { socket_path: Seq<char>, cause: Seq<char> },
    WrapperResponse(Seq<char>),
    WrapperUnsupported,
}

impl View for SidecarError {
    type V = ErrorView;

    open spec fn view(&self) -> ErrorView {
        match self {
            SidecarError::InputClosed => ErrorView::InputClosed,
            SidecarError::ApprovalMessage(cause) => ErrorView::ApprovalMessage(cause@),
            SidecarError::ApprovalId(cause) => ErrorView::ApprovalId(cause@),
            SidecarError::ApprovalRejected(message) => ErrorView::ApprovalRejected(message@),
            SidecarError::ApprovalResultMissing => ErrorView::ApprovalResultMissing,
            SidecarError::ApprovalResult(cause) => ErrorView::ApprovalResult(cause@),
            SidecarError::WrapperRequestBytes(cause) => ErrorView::WrapperRequestBytes(cause@),
            SidecarError::WrapperRequest(cause) => ErrorView::WrapperRequest(cause@),
            SidecarError::WrapperTargetMissing => ErrorView::WrapperTargetMissing,
            SidecarError::WrapperSocketMissing(cause) => ErrorView::WrapperSocketMissing(cause@),
            SidecarError::WrapperConnection { socket_path, cause } => {
                ErrorView::WrapperConnection { socket_path: socket_path@, cause: cause@ }
            },
            SidecarError::WrapperResponse(cause) => ErrorView::WrapperResponse(cause@),
            SidecarError::WrapperUnsupported => ErrorView::WrapperUnsupported,
        }
    }
}

/// The sentence that reports an error.
pub open spec fn error_message(error: ErrorView) -> Seq<char> {
    match error {
        ErrorView::InputClosed => "stdin closed while waiting for approval response"@,
        ErrorView::ApprovalMessage(_) => "parse approval response JSON-RPC message"@,
        ErrorView::ApprovalId(_) => "parse approval response JSON-RPC id"@,
        ErrorView::ApprovalRejected(message) => "host rejected approval callback: "@ + message,
        ErrorView::ApprovalResultMissing => "missing approval callback result"@,
        ErrorView::ApprovalResult(_) => "parse approval callback result"@,
        ErrorView::WrapperRequestBytes(_) => "decode wrapper request as utf-8"@,
        ErrorView::WrapperRequest(_) => "parse wrapper request payload"@,
        ErrorView::WrapperTargetMissing => "exec wrapper mode requires target executable path"@,
        ErrorView::WrapperSocketMissing(_) => "missing wrapper socket path env var"@,
        ErrorView::WrapperConnection { socket_path, .. } => "connect to wrapper socket at "@
            + socket_path,
        ErrorView::WrapperResponse(_) => "parse wrapper response"@,
        ErrorView::WrapperUnsupported => "exec wrapper mode is only supported on unix"@,
    }
}

/// What lies behind an error, where something else failed first.
pub open spec fn error_cause(error: ErrorView) -> Option<Seq<char>> {
    match error {
        ErrorView::ApprovalMessage(cause) => Some(cause),
        ErrorView::ApprovalId(cause) => Some(cause),
        ErrorView::ApprovalResult(cause) => Some(cause),
        ErrorView::WrapperRequestBytes(cause) => Some(cause),
        ErrorView::WrapperRequest(cause) => Some(cause),
        ErrorView::WrapperSocketMissing(cause) => Some(cause),
        ErrorView::WrapperConnection { cause, .. } => Some(cause),
        ErrorView::WrapperResponse(cause) => Some(cause),
        _ => None,
    }
}

impl SidecarError {
    /// The sentence that reports this error.
    pub fn message(&self) -> (text: String)
        ensures
            text@ == error_message(self@),
    {
        match self {
            SidecarError::InputClosed => {
                "stdin closed while waiting for approval response".to_owned()
            },
            SidecarError::ApprovalMessage(_) => {
                "parse approval response JSON-RPC message".to_owned()
            },
            SidecarError::ApprovalId(_) => "parse approval response JSON-RPC id".to_owned(),
            SidecarError::ApprovalRejected(message) => {
                joined("host rejected approval callback: ", message.as_str())
            },
            SidecarError::ApprovalResultMissing => "missing approval callback result".to_owned(),
            SidecarError::ApprovalResult(_) => "parse approval callback result".to_owned(),
            SidecarError::WrapperRequestBytes(_) => "decode wrapper request as utf-8".to_owned(),
            SidecarError::WrapperRequest(_) => "parse wrapper request payload".to_owned(),
            SidecarError::WrapperTargetMissing => {
                "exec wrapper mode requires target executable path".to_owned()
            },
            SidecarError::WrapperSocketMissing(_) => {
                "missing wrapper socket path env var".to_owned()
            },
            SidecarError::WrapperConnection { socket_path, .. } => {
                joined("connect to wrapper socket at ", socket_path.as_str())
            },
            SidecarError::WrapperResponse(_) => "parse wrapper response".to_owned(),
            SidecarError::WrapperUnsupported => {
                "exec wrapper mode is only supported on unix".to_owned()
            },
        }
    }

    /// What lies behind this error.
    pub fn cause(&self) -> (text: Option<String>)
        ensures
            match text {
                Some(text) => error_cause(self@) == Some(text@),
                None => error_cause(self@) is None,
            },
    {
        match self {
            SidecarError::ApprovalMessage(cause) => Some(cause.clone()),
            SidecarError::ApprovalId(cause) => Some(cause.clone()),
            SidecarError::ApprovalResult(cause) => Some(cause.clone()),
            SidecarError::WrapperRequestBytes(cause) => Some(cause.clone()),
            SidecarError::WrapperRequest(cause) => Some(cause.clone()),
            SidecarError::WrapperSocketMissing(cause) => Some(cause.clone()),
            SidecarError::WrapperConnection { cause, .. } => Some(cause.clone()),
            SidecarError::WrapperResponse(cause) => Some(cause.clone()),
            _ => None,
        }
    }
}

} // verus!
