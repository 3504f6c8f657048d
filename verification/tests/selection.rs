use protocol_selector::alpn::{HTTP1_ALPN, HTTP2_ALPN, HTTP3_ALPN};
use protocol_selector::error::SelectionError;
use protocol_selector::protocol::{
    DownstreamProtocol, PingProtocol, ServiceMessengerProtocol, TunnelProtocol,
};
use protocol_selector::selector::{
    listener_for, select, select_ping, select_service_messenger, select_tunnel,
};
use protocol_selector::settings::{ListenProtocolSettings, Settings};

fn settings(
    service_messenger: Option<&str>,
    ping: Option<&str>,
    listeners: Vec<ListenProtocolSettings>,
) -> Settings {
    Settings {
        service_messenger_hostname: service_messenger.map(|name| name.to_string()),
        ping_hostname: ping.map(|name| name.to_string()),
        listen_protocols: listeners,
    }
}

fn all_listeners() -> Vec<ListenProtocolSettings> {
    vec![
        ListenProtocolSettings::Http1,
        ListenProtocolSettings::Http2,
        ListenProtocolSettings::Quic,
    ]
}

#[test]
fn alpn_tokens_are_the_registered_identifiers() {
    assert_eq!(HTTP1_ALPN, "http/1.1");
    assert_eq!(HTTP2_ALPN, "h2");
    assert_eq!(HTTP3_ALPN, "h3");
}

#[test]
fn absent_alpn_on_ordinary_name_is_http1_tunnel() {
    let config = settings(None, None, all_listeners());
    assert_eq!(
        select(&config, None, "example.com"),
        Ok(DownstreamProtocol::Tunnel(TunnelProtocol::Http1))
    );
}

#[test]
fn ping_name_with_http2_is_ping_whatever_the_listeners() {
    for listeners in [vec![], vec![ListenProtocolSettings::Http1], all_listeners()] {
        let config = settings(None, Some("ping.example.com"), listeners);
        assert_eq!(
            select(&config, Some(HTTP2_ALPN), "ping.example.com"),
            Ok(DownstreamProtocol::Ping(PingProtocol::Http2))
        );
    }
}

#[test]
fn http3_without_quic_listener_is_rejected() {
    let config = settings(None, None, vec![ListenProtocolSettings::Http1]);
    assert_eq!(
        select(&config, Some(HTTP3_ALPN), "example.com"),
        Err(SelectionError::ProtocolNotListened { protocol: TunnelProtocol::Http3 })
    );
}

#[test]
fn service_messenger_name_with_http2_is_rejected() {
    let config = settings(Some("svc.internal"), None, all_listeners());
    assert_eq!(
        select(&config, Some(HTTP2_ALPN), "svc.internal"),
        Err(SelectionError::UnexpectedServiceMessengerAlpn { alpn: Some("h2".to_string()) })
    );
}

#[test]
fn service_messenger_name_accepts_http1_and_http3_only() {
    let config = settings(Some("svc.internal"), None, vec![]);
    assert_eq!(
        select(&config, Some("http/1.1"), "svc.internal"),
        Ok(DownstreamProtocol::ServiceMessenger(ServiceMessengerProtocol::Http1))
    );
    assert_eq!(
        select(&config, Some("h3"), "svc.internal"),
        Ok(DownstreamProtocol::ServiceMessenger(ServiceMessengerProtocol::Http3))
    );
    assert_eq!(
        select(&config, None, "svc.internal"),
        Err(SelectionError::UnexpectedServiceMessengerAlpn { alpn: None })
    );
    assert_eq!(
        select(&config, Some("spdy/3"), "svc.internal"),
        Err(SelectionError::UnexpectedServiceMessengerAlpn { alpn: Some("spdy/3".to_string()) })
    );
}

#[test]
fn ping_name_accepts_the_three_identifiers_only() {
    let config = settings(Some("svc.internal"), Some("ping.example.com"), vec![]);
    assert_eq!(
        select(&config, Some("http/1.1"), "ping.example.com"),
        Ok(DownstreamProtocol::Ping(PingProtocol::Http1))
    );
    assert_eq!(
        select(&config, Some("h2"), "ping.example.com"),
        Ok(DownstreamProtocol::Ping(PingProtocol::Http2))
    );
    assert_eq!(
        select(&config, Some("h3"), "ping.example.com"),
        Ok(DownstreamProtocol::Ping(PingProtocol::Http3))
    );
    assert_eq!(
        select(&config, None, "ping.example.com"),
        Err(SelectionError::UnexpectedPingAlpn { alpn: None })
    );
    assert_eq!(
        select(&config, Some("h4"), "ping.example.com"),
        Err(SelectionError::UnexpectedPingAlpn { alpn: Some("h4".to_string()) })
    );
}

#[test]
fn ordinary_name_needs_the_matching_listener() {
    let only_http2 = settings(Some("svc.internal"), Some("ping.example.com"), vec![
        ListenProtocolSettings::Http2,
    ]);
    assert_eq!(
        select(&only_http2, Some("h2"), "example.com"),
        Ok(DownstreamProtocol::Tunnel(TunnelProtocol::Http2))
    );
    assert_eq!(
        select(&only_http2, Some("http/1.1"), "example.com"),
        Err(SelectionError::ProtocolNotListened { protocol: TunnelProtocol::Http1 })
    );
    assert_eq!(
        select(&only_http2, None, "example.com"),
        Err(SelectionError::ProtocolNotListened { protocol: TunnelProtocol::Http1 })
    );
    assert_eq!(
        select(&only_http2, Some("h3"), "example.com"),
        Err(SelectionError::ProtocolNotListened { protocol: TunnelProtocol::Http3 })
    );
    let only_quic = settings(None, None, vec![ListenProtocolSettings::Quic]);
    assert_eq!(
        select(&only_quic, Some("h3"), "example.com"),
        Ok(DownstreamProtocol::Tunnel(TunnelProtocol::Http3))
    );
    assert_eq!(
        select(&only_quic, Some("h2"), "example.com"),
        Err(SelectionError::ProtocolNotListened { protocol: TunnelProtocol::Http2 })
    );
}

#[test]
fn unknown_alpn_on_ordinary_name_is_rejected() {
    let config = settings(None, None, all_listeners());
    assert_eq!(
        select(&config, Some("spdy/3"), "example.com"),
        Err(SelectionError::UnexpectedTunnelAlpn { token: "spdy/3".to_string() })
    );
    assert_eq!(
        select(&config, Some(""), "example.com"),
        Err(SelectionError::UnexpectedTunnelAlpn { token: String::new() })
    );
}

#[test]
fn service_messenger_name_precedes_ping_name() {
    let config = settings(Some("both.example.com"), Some("both.example.com"), all_listeners());
    assert_eq!(
        select(&config, Some("http/1.1"), "both.example.com"),
        Ok(DownstreamProtocol::ServiceMessenger(ServiceMessengerProtocol::Http1))
    );
    assert_eq!(
        select(&config, Some("h2"), "both.example.com"),
        Err(SelectionError::UnexpectedServiceMessengerAlpn { alpn: Some("h2".to_string()) })
    );
}

#[test]
fn selected_protocol_maps_back_to_its_alpn() {
    let config = settings(Some("svc.internal"), Some("ping.example.com"), all_listeners());
    for sni in ["svc.internal", "ping.example.com", "example.com"] {
        for token in [HTTP1_ALPN, HTTP2_ALPN, HTTP3_ALPN] {
            if let Ok(protocol) = select(&config, Some(token), sni) {
                assert_eq!(protocol.as_alpn(), token);
            } else {
                assert_eq!(sni, "svc.internal");
                assert_eq!(token, "h2");
            }
        }
    }
}

#[test]
fn names_are_compared_exactly() {
    let config = settings(Some("svc.internal"), Some("ping.example.com"), vec![
        ListenProtocolSettings::Http1,
    ]);
    for sni in ["SVC.internal", "svc.internal.", "a.svc.internal", "Ping.example.com", "", "svc"] {
        assert_eq!(
            select(&config, Some("http/1.1"), sni),
            Ok(DownstreamProtocol::Tunnel(TunnelProtocol::Http1))
        );
    }
}

#[test]
fn alpn_is_compared_exactly() {
    let config = settings(None, Some("ping.example.com"), all_listeners());
    for token in ["H2", "h2 ", "HTTP/1.1", "http/1.0", "h", "h33"] {
        assert_eq!(
            select(&config, Some(token), "ping.example.com"),
            Err(SelectionError::UnexpectedPingAlpn { alpn: Some(token.to_string()) })
        );
        assert_eq!(
            select(&config, Some(token), "example.com"),
            Err(SelectionError::UnexpectedTunnelAlpn { token: token.to_string() })
        );
    }
}

#[test]
fn empty_server_name_is_ordinary_unless_configured() {
    let plain = settings(None, None, vec![ListenProtocolSettings::Http1]);
    assert_eq!(
        select(&plain, None, ""),
        Ok(DownstreamProtocol::Tunnel(TunnelProtocol::Http1))
    );
    let odd = settings(None, Some(""), vec![]);
    assert_eq!(select(&odd, Some("h3"), ""), Ok(DownstreamProtocol::Ping(PingProtocol::Http3)));
}

#[test]
fn repeated_listeners_count_once() {
    let config = settings(None, None, vec![
        ListenProtocolSettings::Quic,
        ListenProtocolSettings::Quic,
        ListenProtocolSettings::Http1,
        ListenProtocolSettings::Quic,
    ]);
    assert!(config.listens_to(ListenProtocolSettings::Quic));
    assert!(config.listens_to(ListenProtocolSettings::Http1));
    assert!(!config.listens_to(ListenProtocolSettings::Http2));
    assert_eq!(
        select(&config, Some("h3"), "example.com"),
        Ok(DownstreamProtocol::Tunnel(TunnelProtocol::Http3))
    );
    assert_eq!(
        select(&config, Some("h2"), "example.com"),
        Err(SelectionError::ProtocolNotListened { protocol: TunnelProtocol::Http2 })
    );
}

#[test]
fn no_listeners_means_no_tunnel() {
    let config = settings(None, None, vec![]);
    assert!(!config.listens_to(ListenProtocolSettings::Http1));
    assert_eq!(
        select(&config, None, "example.com"),
        Err(SelectionError::ProtocolNotListened { protocol: TunnelProtocol::Http1 })
    );
}

#[test]
fn family_classifiers_agree_with_select() {
    assert_eq!(select_service_messenger(Some("h3")), Ok(ServiceMessengerProtocol::Http3));
    assert_eq!(
        select_service_messenger(Some("h2")),
        Err(SelectionError::UnexpectedServiceMessengerAlpn { alpn: Some("h2".to_string()) })
    );
    assert_eq!(select_ping(Some("h2")), Ok(PingProtocol::Http2));
    assert_eq!(select_ping(None), Err(SelectionError::UnexpectedPingAlpn { alpn: None }));
    assert_eq!(select_tunnel(None), Ok(TunnelProtocol::Http1));
    assert_eq!(select_tunnel(Some("h3")), Ok(TunnelProtocol::Http3));
    assert_eq!(
        select_tunnel(Some("quic")),
        Err(SelectionError::UnexpectedTunnelAlpn { token: "quic".to_string() })
    );
}

#[test]
fn each_tunnel_protocol_has_its_listener() {
    assert_eq!(listener_for(TunnelProtocol::Http1), ListenProtocolSettings::Http1);
    assert_eq!(listener_for(TunnelProtocol::Http2), ListenProtocolSettings::Http2);
    assert_eq!(listener_for(TunnelProtocol::Http3), ListenProtocolSettings::Quic);
}
