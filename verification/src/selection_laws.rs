//! What holds of every selection, proved from its definition.

use vstd::prelude::*;
use crate::alpn::{http1_token, http2_token, http3_token, lemma_tokens_differ};
use crate::error::SelectionErrorView;
use crate::protocol::{
    DownstreamProtocol, PingProtocol, ServiceMessengerProtocol, TunnelProtocol,
};
use crate::selector::selection;
use crate::settings::{ListenProtocolSettings, SettingsView};

verus! {

/// On the control-channel name, HTTP/1.1 and HTTP/3 are accepted and every
/// other ALPN outcome, HTTP/2 and absence among them, is an error that
/// carries the outcome.
pub proof fn lemma_service_messenger_name(
    settings: SettingsView,
    alpn: Option<Seq<char>>,
    sni: Seq<char>,
)
    requires
        settings.service_messenger_hostname == Some(sni),
    ensures
        alpn == Some(http1_token()) ==> selection(settings, alpn, sni) == Ok::<
            DownstreamProtocol,
            SelectionErrorView,
        >(DownstreamProtocol::ServiceMessenger(ServiceMessengerProtocol::Http1)),
        alpn == Some(http3_token()) ==> selection(settings, alpn, sni) == Ok::<
            DownstreamProtocol,
            SelectionErrorView,
        >(DownstreamProtocol::ServiceMessenger(ServiceMessengerProtocol::Http3)),
        alpn != Some(http1_token()) && alpn != Some(http3_token()) ==> selection(
            settings,
            alpn,
            sni,
        ) == Err::<DownstreamProtocol, SelectionErrorView>(
            SelectionErrorView::UnexpectedServiceMessengerAlpn { alpn },
        ),
        alpn == Some(http2_token()) || alpn is None ==> selection(settings, alpn, sni) is Err,
{
    lemma_tokens_differ();
}

/// On the liveness-check name, where it is not also the control-channel name,
/// each of the three identifiers gives its protocol and every other ALPN
/// outcome, absence among them, is an error that carries the outcome.
pub proof fn lemma_ping_name(settings: SettingsView, alpn: Option<Seq<char>>, sni: Seq<char>)
    requires
        settings.ping_hostname == Some(sni),
        settings.service_messenger_hostname != Some(sni),
    ensures
        alpn == Some(http1_token()) ==> selection(settings, alpn, sni) == Ok::<
            DownstreamProtocol,
            SelectionErrorView,
        >(DownstreamProtocol::Ping(PingProtocol::Http1)),
        alpn == Some(http2_token()) ==> selection(settings, alpn, sni) == Ok::<
            DownstreamProtocol,
            SelectionErrorView,
        >(DownstreamProtocol::Ping(PingProtocol::Http2)),
        alpn == Some(http3_token()) ==> selection(settings, alpn, sni) == Ok::<
            DownstreamProtocol,
            SelectionErrorView,
        >(DownstreamProtocol::Ping(PingProtocol::Http3)),
        alpn != Some(http1_token()) && alpn != Some(http2_token()) && alpn != Some(http3_token())
            ==> selection(settings, alpn, sni) == Err::<DownstreamProtocol, SelectionErrorView>(
            SelectionErrorView::UnexpectedPingAlpn { alpn },
        ),
{
    lemma_tokens_differ();
}

/// On any other name the connection is tunnel traffic: an absent identifier
/// counts as HTTP/1.1, a recognised protocol is accepted exactly when its
/// listener is enabled (QUIC for HTTP/3), and an unknown identifier is an
/// error that carries it.
pub proof fn lemma_other_name(settings: SettingsView, alpn: Option<Seq<char>>, sni: Seq<char>)
    requires
        settings.service_messenger_hostname != Some(sni),
        settings.ping_hostname != Some(sni),
    ensures
        alpn is None || alpn == Some(http1_token()) ==> selection(settings, alpn, sni) == (
        if settings.listen_protocols.contains(ListenProtocolSettings::Http1) {
            Ok::<DownstreamProtocol, SelectionErrorView>(
                DownstreamProtocol::Tunnel(TunnelProtocol::Http1),
            )
        } else {
            Err::<DownstreamProtocol, SelectionErrorView>(
                SelectionErrorView::ProtocolNotListened { protocol: TunnelProtocol::Http1 },
            )
        }),
        alpn == Some(http2_token()) ==> selection(settings, alpn, sni) == (
        if settings.listen_protocols.contains(ListenProtocolSettings::Http2) {
            Ok::<DownstreamProtocol, SelectionErrorView>(
                DownstreamProtocol::Tunnel(TunnelProtocol::Http2),
            )
        } else {
            Err::<DownstreamProtocol, SelectionErrorView>(
                SelectionErrorView::ProtocolNotListened { protocol: TunnelProtocol::Http2 },
            )
        }),
        alpn == Some(http3_token()) ==> selection(settings, alpn, sni) == (
        if settings.listen_protocols.contains(ListenProtocolSettings::Quic) {
            Ok::<DownstreamProtocol, SelectionErrorView>(
                DownstreamProtocol::Tunnel(TunnelProtocol::Http3),
            )
        } else {
            Err::<DownstreamProtocol, SelectionErrorView>(
                SelectionErrorView::ProtocolNotListened { protocol: TunnelProtocol::Http3 },
            )
        }),
        alpn is Some && alpn != Some(http1_token()) && alpn != Some(http2_token()) && alpn
            != Some(http3_token()) ==> selection(settings, alpn, sni) == Err::<
            DownstreamProtocol,
            SelectionErrorView,
        >(SelectionErrorView::UnexpectedTunnelAlpn { token: alpn->0 }),
{
    lemma_tokens_differ();
}

/// The control-channel name takes precedence: on it, neither the
/// liveness-check name nor the listeners have any say, so a name configured
/// for both is never classified as a liveness check.
pub proof fn lemma_service_messenger_precedes(
    settings: SettingsView,
    other: SettingsView,
    alpn: Option<Seq<char>>,
    sni: Seq<char>,
)
    requires
        settings.service_messenger_hostname == Some(sni),
        other.service_messenger_hostname == Some(sni),
    ensures
        selection(settings, alpn, sni) == selection(other, alpn, sni),
        !(selection(settings, alpn, sni) matches Ok(DownstreamProtocol::Ping(_))),
        !(selection(settings, alpn, sni) matches Ok(DownstreamProtocol::Tunnel(_))),
{
}

/// On the liveness-check name the listeners have no say.
pub proof fn lemma_ping_ignores_listeners(
    settings: SettingsView,
    listeners: Set<ListenProtocolSettings>,
    alpn: Option<Seq<char>>,
    sni: Seq<char>,
)
    requires
        settings.ping_hostname == Some(sni),
    ensures
        selection(settings, alpn, sni) == selection(
            SettingsView { listen_protocols: listeners, ..settings },
            alpn,
            sni,
        ),
        !(selection(settings, alpn, sni) matches Ok(DownstreamProtocol::Tunnel(_))),
{
}

/// A protocol that was selected for a negotiated identifier maps back to
/// that identifier. Without a negotiated identifier the only selection is
/// the HTTP/1.1 tunnel.
pub proof fn lemma_alpn_round_trip(
    settings: SettingsView,
    alpn: Option<Seq<char>>,
    sni: Seq<char>,
)
    requires
        selection(settings, alpn, sni) is Ok,
    ensures
        alpn matches Some(token) ==> selection(settings, alpn, sni)->Ok_0.alpn_token() == token,
        alpn is None ==> selection(settings, alpn, sni)->Ok_0 == DownstreamProtocol::Tunnel(
            TunnelProtocol::Http1,
        ),
{
}

/// A tunnel is selected only for a protocol whose listener is enabled.
pub proof fn lemma_selected_tunnel_is_listened(
    settings: SettingsView,
    alpn: Option<Seq<char>>,
    sni: Seq<char>,
)
    ensures
        selection(settings, alpn, sni) matches Ok(DownstreamProtocol::Tunnel(kind))
            ==> settings.listen_protocols.contains(crate::selector::required_listener(kind)),
{
}

} // verus!
