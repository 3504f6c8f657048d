//! Why a connection could not be classified.

use vstd::prelude::*;
use vstd::string::StringExecFns;
use crate::protocol::TunnelProtocol;
use crate::text::{optional_str_view, optional_string_view};

verus! {

/// A failed selection. Each variant names the connection context and carries
/// the offending value. Every failure is final for the connection.
#[derive(Debug, Clone, PartialEq, Eq)]
pub enum SelectionError {
    /// The control-channel name was requested with an ALPN identifier other
    /// than HTTP/1.1 or HTTP/3, or with none.
    UnexpectedServiceMessengerAlpn { alpn: Option<String> },
    /// The liveness-check name was requested with an unknown ALPN identifier,
    /// or with none.
    UnexpectedPingAlpn { alpn: Option<String> },
    /// Ordinary traffic arrived with an unknown ALPN identifier.
    UnexpectedTunnelAlpn { token: String },
    /// Ordinary traffic negotiated a protocol that no listener is enabled for.
    ProtocolNotListened { protocol: TunnelProtocol },
}

/// What a failed selection means, with texts as character sequences.
pub ghost enum SelectionErrorView {
    UnexpectedServiceMessengerAlpn { alpn: Option<Seq<char>> },
    UnexpectedPingAlpn { alpn: Option<Seq<char>> },
    UnexpectedTunnelAlpn { token: Seq<char> },
    ProtocolNotListened { protocol: TunnelProtocol },
}

impl View for SelectionError {
    type V = SelectionErrorView;

    open spec fn view(&self) -> SelectionErrorView {
        match *self {
            SelectionError::UnexpectedServiceMessengerAlpn { alpn } => {
                SelectionErrorView::UnexpectedServiceMessengerAlpn {
                    alpn: optional_string_view(alpn),
                }
            },
            SelectionError::UnexpectedPingAlpn { alpn } => {
                SelectionErrorView::UnexpectedPingAlpn { alpn: optional_string_view(alpn) }
            },
            SelectionError::UnexpectedTunnelAlpn { token } => {
                SelectionErrorView::UnexpectedTunnelAlpn { token: token@ }
            },
            SelectionError::ProtocolNotListened { protocol } => {
                SelectionErrorView::ProtocolNotListened { protocol }
            },
        }
    }
}

/// The text that the standard `{:?}` formatting of a string slice produces:
/// the text between double quotes, with its special characters escaped.
pub uninterp spec fn quoted_text(text: Seq<char>) -> Seq<char>;

/// Formats a string slice with `{:?}`, that is with the implementation of
/// `core::fmt::Debug` for `str`. The contract is not proved: it gives the
/// result its name and claims only that the result is determined by the
/// characters of the argument.
#[verifier::external_body]
fn quote(text: &str) -> (quoted: String)
    ensures
        quoted@ == quoted_text(text@),
{
    format!("{:?}", text)
}

/// How an ALPN outcome is written in a message, given the quoted identifier
/// where there is one.
pub open spec fn rendered_alpn(quoted: Option<Seq<char>>) -> Seq<char> {
    match quoted {
        Some(q) => "Some("@ + q + ")"@,
        None => "None"@,
    }
}

/// Writes an ALPN outcome for a message: `None`, or the already quoted
/// identifier inside `Some(` and `)`.
pub fn render_alpn(quoted: Option<&str>) -> (text: String)
    ensures
        text@ == rendered_alpn(optional_str_view(quoted)),
{
    match quoted {
        Some(q) => {
            let mut text = "Some(".to_owned();
            text.append(q);
            text.append(")");
            text
        },
        None => "None".to_owned(),
    }
}

/// The quoted form of an optional identifier.
pub open spec fn quoted_alpn(alpn: Option<Seq<char>>) -> Option<Seq<char>> {
    match alpn {
        Some(token) => Some(quoted_text(token)),
        None => None,
    }
}

impl SelectionErrorView {
    /// The sentence that names the connection context of the failure.
    pub open spec fn cause(self) -> Seq<char> {
        match self {
            SelectionErrorView::UnexpectedServiceMessengerAlpn { .. } => {
                "Unexpected ALPN on service messenger connection "@
            },
            SelectionErrorView::UnexpectedPingAlpn { .. } => {
                "Unexpected ALPN on pinging connection "@
            },
            SelectionErrorView::UnexpectedTunnelAlpn { .. } => {
                "Unexpected ALPN on tunnel connection "@
            },
            SelectionErrorView::ProtocolNotListened { .. } => {
                "Selected protocol is not being listened to: "@
            },
        }
    }

    /// The offending value as it is written after the cause.
    pub open spec fn offender(self) -> Seq<char> {
        match self {
            SelectionErrorView::UnexpectedServiceMessengerAlpn { alpn } => rendered_alpn(
                quoted_alpn(alpn),
            ),
            SelectionErrorView::UnexpectedPingAlpn { alpn } => rendered_alpn(quoted_alpn(alpn)),
            SelectionErrorView::UnexpectedTunnelAlpn { token } => rendered_alpn(
                Some(quoted_text(token)),
            ),
            SelectionErrorView::ProtocolNotListened { protocol } => protocol.variant_name(),
        }
    }

    /// The human-readable description: the cause, then the offending value.
    pub open spec fn message(self) -> Seq<char> {
        self.cause() + self.offender()
    }
}

/// Writes an optional ALPN identifier for a message.
fn describe_alpn(alpn: &Option<String>) -> (text: String)
    ensures
        text@ == rendered_alpn(quoted_alpn(optional_string_view(*alpn))),
{
    match alpn {
        Some(token) => {
            let quoted = quote(token.as_str());
            render_alpn(Some(quoted.as_str()))
        },
        None => render_alpn(None),
    }
}

impl SelectionError {
    /// Returns the sentence that names the connection context of the failure.
    pub fn cause(&self) -> (text: &'static str)
        ensures
            text@ == self@.cause(),
    {
        match self {
            SelectionError::UnexpectedServiceMessengerAlpn { .. } => {
                "Unexpected ALPN on service messenger connection "
            },
            SelectionError::UnexpectedPingAlpn { .. } => "Unexpected ALPN on pinging connection ",
            SelectionError::UnexpectedTunnelAlpn { .. } => "Unexpected ALPN on tunnel connection ",
            SelectionError::ProtocolNotListened { .. } => {
                "Selected protocol is not being listened to: "
            },
        }
    }

    /// Returns the human-readable description of the failure.
    pub fn message(&self) -> (text: String)
        ensures
            text@ == self@.message(),
    {
        let mut text = self.cause().to_owned();
        match self {
            SelectionError::UnexpectedServiceMessengerAlpn { alpn } => {
                let offender = describe_alpn(alpn);
                text.append(offender.as_str());
            },
            SelectionError::UnexpectedPingAlpn { alpn } => {
                let offender = describe_alpn(alpn);
                text.append(offender.as_str());
            },
            SelectionError::UnexpectedTunnelAlpn { token } => {
                let quoted = quote(token.as_str());
                let offender = render_alpn(Some(quoted.as_str()));
                text.append(offender.as_str());
            },
            SelectionError::ProtocolNotListened { protocol } => {
                text.append(protocol.name());
            },
        }
        text
    }
}

} // verus!
