//! The decision that hands a connection to its protocol handler.

use vstd::prelude::*;
use crate::alpn::{
    http1_token, http2_token, http3_token, lemma_token_constants, HTTP1_ALPN, HTTP2_ALPN,
    HTTP3_ALPN,
};
use crate::error::{SelectionError, SelectionErrorView};
use crate::protocol::{
    DownstreamProtocol, PingProtocol, ServiceMessengerProtocol, TunnelProtocol,
};
use crate::settings::{ListenProtocolSettings, Settings, SettingsView};
use crate::text::{is_text, optional_str_view, owned_text, same_text};

verus! {

/// The control-channel protocol that an ALPN outcome stands for, if any.
/// There is no default: an absent identifier stands for none.
pub open spec fn service_messenger_kind(alpn: Option<Seq<char>>) -> Option<
    ServiceMessengerProtocol,
> {
    if alpn == Some(http1_token()) {
        Some(ServiceMessengerProtocol::Http1)
    } else if alpn == Some(http3_token()) {
        Some(ServiceMessengerProtocol::Http3)
    } else {
        None
    }
}

/// The liveness-check protocol that an ALPN outcome stands for, if any.
/// There is no default: an absent identifier stands for none.
pub open spec fn ping_kind(alpn: Option<Seq<char>>) -> Option<PingProtocol> {
    if alpn == Some(http1_token()) {
        Some(PingProtocol::Http1)
    } else if alpn == Some(http2_token()) {
        Some(PingProtocol::Http2)
    } else if alpn == Some(http3_token()) {
        Some(PingProtocol::Http3)
    } else {
        None
    }
}

/// The tunnel protocol that an ALPN outcome stands for, if any.
/// An absent identifier stands for HTTP/1.1.
pub open spec fn tunnel_kind(alpn: Option<Seq<char>>) -> Option<TunnelProtocol> {
    if alpn is None || alpn == Some(http1_token()) {
        Some(TunnelProtocol::Http1)
    } else if alpn == Some(http2_token()) {
        Some(TunnelProtocol::Http2)
    } else if alpn == Some(http3_token()) {
        Some(TunnelProtocol::Http3)
    } else {
        None
    }
}

/// The listener that must be enabled for a tunnel protocol to be served.
pub open spec fn required_listener(kind: TunnelProtocol) -> ListenProtocolSettings {
    match kind {
        TunnelProtocol::Http1 => ListenProtocolSettings::Http1,
        TunnelProtocol::Http2 => ListenProtocolSettings::Http2,
        TunnelProtocol::Http3 => ListenProtocolSettings::Quic,
    }
}

/// The outcome of a selection, with texts as character sequences.
pub open spec fn outcome_view(outcome: Result<DownstreamProtocol, SelectionError>) -> Result<
    DownstreamProtocol,
    SelectionErrorView,
> {
    match outcome {
        Ok(protocol) => Ok(protocol),
        Err(error) => Err(error@),
    }
}

/// The classification of a connection.
///
/// The control-channel name is tried first, then the liveness-check name;
/// everything else is ordinary tunnel traffic, which alone is held against
/// the enabled listeners.
pub open spec fn selection(settings: SettingsView, alpn: Option<Seq<char>>, sni: Seq<char>)
    -> Result<DownstreamProtocol, SelectionErrorView> {
    if settings.service_messenger_hostname == Some(sni) {
        match service_messenger_kind(alpn) {
            Some(kind) => Ok(DownstreamProtocol::ServiceMessenger(kind)),
            None => Err(SelectionErrorView::UnexpectedServiceMessengerAlpn { alpn }),
        }
    } else if settings.ping_hostname == Some(sni) {
        match ping_kind(alpn) {
            Some(kind) => Ok(DownstreamProtocol::Ping(kind)),
            None => Err(SelectionErrorView::UnexpectedPingAlpn { alpn }),
        }
    } else {
        match tunnel_kind(alpn) {
            Some(kind) => if settings.listen_protocols.contains(required_listener(kind)) {
                Ok(DownstreamProtocol::Tunnel(kind))
            } else {
                Err(SelectionErrorView::ProtocolNotListened { protocol: kind })
            },
            None => Err(SelectionErrorView::UnexpectedTunnelAlpn { token: alpn->0 }),
        }
    }
}

/// Classifies an ALPN outcome on the control-channel name.
pub fn select_service_messenger(alpn: Option<&str>) -> (outcome: Result<
    ServiceMessengerProtocol,
    SelectionError,
>)
    ensures
        match service_messenger_kind(optional_str_view(alpn)) {
            Some(kind) => outcome == Ok::<ServiceMessengerProtocol, SelectionError>(kind),
            None => outcome is Err && outcome->Err_0@
                == (SelectionErrorView::UnexpectedServiceMessengerAlpn {
                alpn: optional_str_view(alpn),
            }),
        },
{
    proof {
        lemma_token_constants();
    }
    if let Some(token) = alpn {
        if same_text(token, HTTP1_ALPN) {
            return Ok(ServiceMessengerProtocol::Http1);
        }
        if same_text(token, HTTP3_ALPN) {
            return Ok(ServiceMessengerProtocol::Http3);
        }
    }
    Err(SelectionError::UnexpectedServiceMessengerAlpn { alpn: owned_text(alpn) })
}

/// Classifies an ALPN outcome on the liveness-check name.
pub fn select_ping(alpn: Option<&str>) -> (outcome: Result<PingProtocol, SelectionError>)
    ensures
        match ping_kind(optional_str_view(alpn)) {
            Some(kind) => outcome == Ok::<PingProtocol, SelectionError>(kind),
            None => outcome is Err && outcome->Err_0@ == (SelectionErrorView::UnexpectedPingAlpn {
                alpn: optional_str_view(alpn),
            }),
        },
{
    proof {
        lemma_token_constants();
    }
    if let Some(token) = alpn {
        if same_text(token, HTTP1_ALPN) {
            return Ok(PingProtocol::Http1);
        }
        if same_text(token, HTTP2_ALPN) {
            return Ok(PingProtocol::Http2);
        }
        if same_text(token, HTTP3_ALPN) {
            return Ok(PingProtocol::Http3);
        }
    }
    Err(SelectionError::UnexpectedPingAlpn { alpn: owned_text(alpn) })
}

/// Classifies an ALPN outcome on any other name, before the listeners are
/// consulted.
pub fn select_tunnel(alpn: Option<&str>) -> (outcome: Result<TunnelProtocol, SelectionError>)
    ensures
        match tunnel_kind(optional_str_view(alpn)) {
            Some(kind) => outcome == Ok::<TunnelProtocol, SelectionError>(kind),
            None => alpn is Some && outcome is Err && outcome->Err_0@
                == (SelectionErrorView::UnexpectedTunnelAlpn { token: alpn->0@ }),
        },
{
    proof {
        lemma_token_constants();
    }
    match alpn {
        None => Ok(TunnelProtocol::Http1),
        Some(token) => {
            if same_text(token, HTTP1_ALPN) {
                Ok(TunnelProtocol::Http1)
            } else if same_text(token, HTTP2_ALPN) {
                Ok(TunnelProtocol::Http2)
            } else if same_text(token, HTTP3_ALPN) {
                Ok(TunnelProtocol::Http3)
            } else {
                Err(SelectionError::UnexpectedTunnelAlpn { token: token.to_owned() })
            }
        },
    }
}

/// Names the listener that serves a tunnel protocol.
pub fn listener_for(kind: TunnelProtocol) -> (listener: ListenProtocolSettings)
    ensures
        listener == required_listener(kind),
{
    match kind {
        TunnelProtocol::Http1 => ListenProtocolSettings::Http1,
        TunnelProtocol::Http2 => ListenProtocolSettings::Http2,
        TunnelProtocol::Http3 => ListenProtocolSettings::Quic,
    }
}

/// Decides which protocol handler owns a connection, from the configuration,
/// the negotiated ALPN identifier (if any) and the requested server name.
///
/// Names are compared exactly. The function reads nothing but its arguments.
pub fn select(settings: &Settings, alpn: Option<&str>, sni: &str) -> (outcome: Result<
    DownstreamProtocol,
    SelectionError,
>)
    ensures
        outcome_view(outcome) == selection(settings@, optional_str_view(alpn), sni@),
{
    if is_text(&settings.service_messenger_hostname, sni) {
        match select_service_messenger(alpn) {
            Ok(kind) => Ok(DownstreamProtocol::ServiceMessenger(kind)),
            Err(error) => Err(error),
        }
    } else if is_text(&settings.ping_hostname, sni) {
        match select_ping(alpn) {
            Ok(kind) => Ok(DownstreamProtocol::Ping(kind)),
            Err(error) => Err(error),
        }
    } else {
        match select_tunnel(alpn) {
            Ok(kind) => {
                if settings.listens_to(listener_for(kind)) {
                    Ok(DownstreamProtocol::Tunnel(kind))
                } else {
                    Err(SelectionError::ProtocolNotListened { protocol: kind })
                }
            },
            Err(error) => Err(error),
        }
    }
}

} // verus!
