//! Every way in which an operation of the engine can fail.

use vstd::prelude::*;
use vstd::string::StringExecFns;

verus! {

/// A failure, as the caller sees it.
#[derive(Debug)]
pub enum ChatError {
    /// The credential cannot stand in an HTTP header. Carries the credential.
    InvalidCredentialFormat(String),
    /// The service did not accept the credential. Carries the credential.
    AuthenticationRejected(String),
    /// The handshake did not give a socket. Carries the transport's words.
    HandshakeFailed(String),
    /// A frame could not be written. Carries the transport's words.
    WriteFailed(String),
    /// A frame could not be read. One handshake was attempted since, and
    /// `reconnected` says whether it gave a new socket.
    ReadFailed { detail: String, reconnected: bool },
    /// The text behind a known tag is no JSON. Carries the parser's words.
    MalformedPayload(String),
}

/// A failure as plain text.
pub enum ErrorView {
    InvalidCredentialFormat(Seq<char>),
    AuthenticationRejected(Seq<char>),
    HandshakeFailed(Seq<char>),
    WriteFailed(Seq<char>),
    ReadFailed { detail: Seq<char>, reconnected: bool },
    MalformedPayload(Seq<char>),
}

impl View for ChatError {
    type V = ErrorView;

    open spec fn view(&self) -> ErrorView {
        match self {
            ChatError::InvalidCredentialFormat(c) => ErrorView::InvalidCredentialFormat(c@),
            ChatError::AuthenticationRejected(c) => ErrorView::AuthenticationRejected(c@),
            ChatError::HandshakeFailed(d) => ErrorView::HandshakeFailed(d@),
            ChatError::WriteFailed(d) => ErrorView::WriteFailed(d@),
            ChatError::ReadFailed { detail, reconnected } => ErrorView::ReadFailed {
                detail: detail@,
                reconnected: *reconnected,
            },
            ChatError::MalformedPayload(d) => ErrorView::MalformedPayload(d@),
        }
    }
}

/// `[cookie="` and `"]` around a credential, as the two credential errors
/// end.
pub open spec fn cookie_note(cookie: Seq<char>) -> Seq<char> {
    " [cookie=\""@ + cookie + "\"]"@
}

impl ErrorView {
    /// The sentence that describes the failure.
    pub open spec fn text(self) -> Seq<char> {
        match self {
            ErrorView::InvalidCredentialFormat(c) => {
                "The cookie cannot be sent as a header value."@ + cookie_note(c)
            },
            ErrorView::AuthenticationRejected(c) => {
                "Could not log in with cookie. The cookie must have the format as specified in the cookie.template file."@
                    + cookie_note(c)
            },
            ErrorView::HandshakeFailed(d) => d,
            ErrorView::WriteFailed(d) => d,
            ErrorView::ReadFailed { detail, reconnected } => {
                "Error reading: ["@ + detail + if reconnected {
                    "]: => reconnected"@
                } else {
                    "]: => not reconnected"@
                }
            },
            ErrorView::MalformedPayload(d) => d,
        }
    }
}

impl Clone for ChatError {
    fn clone(&self) -> (copy: Self)
        ensures
            copy@ == self@,
    {
        match self {
            ChatError::InvalidCredentialFormat(c) => ChatError::InvalidCredentialFormat(c.clone()),
            ChatError::AuthenticationRejected(c) => ChatError::AuthenticationRejected(c.clone()),
            ChatError::HandshakeFailed(d) => ChatError::HandshakeFailed(d.clone()),
            ChatError::WriteFailed(d) => ChatError::WriteFailed(d.clone()),
            ChatError::ReadFailed { detail, reconnected } => ChatError::ReadFailed {
                detail: detail.clone(),
                reconnected: *reconnected,
            },
            ChatError::MalformedPayload(d) => ChatError::MalformedPayload(d.clone()),
        }
    }
}

impl ChatError {
    /// The sentence that describes the failure, for a caller that reports
    /// failures as text.
    pub fn message(&self) -> (text: String)
        ensures
            text@ == self@.text(),
    {
        match self {
            ChatError::InvalidCredentialFormat(c) => {
                let mut text = String::from_str("The cookie cannot be sent as a header value.");
                text.append(" [cookie=\"");
                text.append(c.as_str());
                text.append("\"]");
                text
            },
            ChatError::AuthenticationRejected(c) => {
                let mut text = String::from_str(
                    "Could not log in with cookie. The cookie must have the format as specified in the cookie.template file.",
                );
                text.append(" [cookie=\"");
                text.append(c.as_str());
                text.append("\"]");
                text
            },
            ChatError::HandshakeFailed(d) => d.clone(),
            ChatError::WriteFailed(d) => d.clone(),
            ChatError::ReadFailed { detail, reconnected } => {
                let mut text = String::from_str("Error reading: [");
                text.append(detail.as_str());
                if *reconnected {
                    text.append("]: => reconnected");
                } else {
                    text.append("]: => not reconnected");
                }
                text
            },
            ChatError::MalformedPayload(d) => d.clone(),
        }
    }
}

} // verus!
