//! The failures that the client tells apart.

use vstd::prelude::*;
use vstd::string::StringExecFns;

verus! {

/// Why a request or an event stream session failed.
#[derive(Debug, PartialEq, Eq)]
pub enum NiriError {
    /// The socket could not be connected, written or read.
    Transport(String),
    /// The compositor answered with an error of its own.
    ProtocolReject(String),
    /// A message was malformed or did not fit the schema.
    Decode(String),
    /// The client itself is at fault, as with a socket path that cannot be
    /// resolved or a request that cannot be written.
    Local(String),
}

/// Mathematical value of a [`NiriError`].
pub enum NiriErrorView {
    Transport(Seq<char>),
    ProtocolReject(Seq<char>),
    Decode(Seq<char>),
    Local(Seq<char>),
}

impl View for NiriError {
    type V = NiriErrorView;

    open spec fn view(&self) -> NiriErrorView {
        match *self {
            NiriError::Transport(detail) => NiriErrorView::Transport(detail@),
            NiriError::ProtocolReject(detail) => NiriErrorView::ProtocolReject(detail@),
            NiriError::Decode(detail) => NiriErrorView::Decode(detail@),
            NiriError::Local(detail) => NiriErrorView::Local(detail@),
        }
    }
}

/// Mathematical value of an optional error.
pub open spec fn error_view(error: Option<NiriError>) -> Option<NiriErrorView> {
    match error {
        Some(e) => Some(e@),
        None => None,
    }
}

/// The words in which a failure is reported to a caller: the compositor's
/// own message is marked as such, any other detail stands as it is.
pub open spec fn message_of(error: NiriErrorView) -> Seq<char> {
    match error {
        NiriErrorView::Transport(detail) => detail,
        NiriErrorView::ProtocolReject(detail) => "Niri error: "@ + detail,
        NiriErrorView::Decode(detail) => detail,
        NiriErrorView::Local(detail) => detail,
    }
}

impl Clone for NiriError {
    fn clone(&self) -> (copy: Self)
        ensures
            copy@ == self@,
    {
        match self {
            NiriError::Transport(detail) => NiriError::Transport(detail.clone()),
            NiriError::ProtocolReject(detail) => NiriError::ProtocolReject(detail.clone()),
            NiriError::Decode(detail) => NiriError::Decode(detail.clone()),
            NiriError::Local(detail) => NiriError::Local(detail.clone()),
        }
    }
}

impl NiriError {
    /// The words in which the failure is reported to a caller.
    pub fn message(&self) -> (words: String)
        ensures
            words@ == message_of(self@),
    {
        match self {
            NiriError::Transport(detail) => detail.clone(),
            NiriError::ProtocolReject(detail) => String::from_str("Niri error: ").concat(
                detail.as_str(),
            ),
            NiriError::Decode(detail) => detail.clone(),
            NiriError::Local(detail) => detail.clone(),
        }
    }
}

} // verus!
