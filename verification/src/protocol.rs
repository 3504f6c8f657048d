//! The protocol families a connection can be handed to, and their labels.

use vstd::prelude::*;
use crate::alpn::{
    http1_token, http2_token, http3_token, lemma_token_constants, HTTP1_ALPN, HTTP2_ALPN,
    HTTP3_ALPN,
};

verus! {

/// Wire protocol of ordinary proxied client traffic.
#[derive(Debug, Clone, Copy, PartialEq, Eq, Structural)]
pub enum TunnelProtocol {
    Http1,
    Http2,
    Http3,
}

/// Wire protocol of a liveness-check connection.
#[derive(Debug, Clone, Copy, PartialEq, Eq, Structural)]
pub enum PingProtocol {
    Http1,
    Http2,
    Http3,
}

/// Wire protocol of the internal control channel. HTTP/2 is not offered.
#[derive(Debug, Clone, Copy, PartialEq, Eq, Structural)]
pub enum ServiceMessengerProtocol {
    Http1,
    Http3,
}

/// The handler family that owns a connection, with its wire protocol.
#[derive(Debug, Clone, Copy, PartialEq, Eq, Structural)]
pub enum DownstreamProtocol {
    Tunnel(TunnelProtocol),
    Ping(PingProtocol),
    ServiceMessenger(ServiceMessengerProtocol),
}

impl TunnelProtocol {
    /// The ALPN identifier of this wire protocol.
    pub open spec fn alpn_token(self) -> Seq<char> {
        match self {
            TunnelProtocol::Http1 => http1_token(),
            TunnelProtocol::Http2 => http2_token(),
            TunnelProtocol::Http3 => http3_token(),
        }
    }

    /// The upper-case label of this wire protocol.
    pub open spec fn label(self) -> Seq<char> {
        match self {
            TunnelProtocol::Http1 => seq!['H', 'T', 'T', 'P', '1'],
            TunnelProtocol::Http2 => seq!['H', 'T', 'T', 'P', '2'],
            TunnelProtocol::Http3 => seq!['H', 'T', 'T', 'P', '3'],
        }
    }

    /// The name of the variant, as it is written in diagnostics.
    pub open spec fn variant_name(self) -> Seq<char> {
        match self {
            TunnelProtocol::Http1 => seq!['H', 't', 't', 'p', '1'],
            TunnelProtocol::Http2 => seq!['H', 't', 't', 'p', '2'],
            TunnelProtocol::Http3 => seq!['H', 't', 't', 'p', '3'],
        }
    }

    /// Returns the name of the variant: `Http1`, `Http2` or `Http3`.
    pub fn name(&self) -> (text: &'static str)
        ensures
            text@ == self.variant_name(),
    {
        proof {
            reveal_strlit("Http1");
            reveal_strlit("Http2");
            reveal_strlit("Http3");
        }
        let text = match self {
            TunnelProtocol::Http1 => "Http1",
            TunnelProtocol::Http2 => "Http2",
            TunnelProtocol::Http3 => "Http3",
        };
        assert(text@ =~= self.variant_name());
        text
    }

    /// Returns the upper-case label: `HTTP1`, `HTTP2` or `HTTP3`.
    pub fn to_str(&self) -> (text: &'static str)
        ensures
            text@ == self.label(),
    {
        proof {
            reveal_strlit("HTTP1");
            reveal_strlit("HTTP2");
            reveal_strlit("HTTP3");
        }
        let text = match self {
            TunnelProtocol::Http1 => "HTTP1",
            TunnelProtocol::Http2 => "HTTP2",
            TunnelProtocol::Http3 => "HTTP3",
        };
        assert(text@ =~= self.label());
        text
    }
}

impl PingProtocol {
    /// The ALPN identifier of this wire protocol.
    pub open spec fn alpn_token(self) -> Seq<char> {
        match self {
            PingProtocol::Http1 => http1_token(),
            PingProtocol::Http2 => http2_token(),
            PingProtocol::Http3 => http3_token(),
        }
    }
}

impl ServiceMessengerProtocol {
    /// The ALPN identifier of this wire protocol.
    pub open spec fn alpn_token(self) -> Seq<char> {
        match self {
            ServiceMessengerProtocol::Http1 => http1_token(),
            ServiceMessengerProtocol::Http3 => http3_token(),
        }
    }
}

impl DownstreamProtocol {
    /// The ALPN identifier under which this protocol is negotiated.
    pub open spec fn alpn_token(self) -> Seq<char> {
        match self {
            DownstreamProtocol::Tunnel(kind) => kind.alpn_token(),
            DownstreamProtocol::Ping(kind) => kind.alpn_token(),
            DownstreamProtocol::ServiceMessenger(kind) => kind.alpn_token(),
        }
    }

    /// Returns the ALPN identifier under which this protocol is negotiated.
    pub fn as_alpn(&self) -> (token: &'static str)
        ensures
            token@ == self.alpn_token(),
    {
        proof {
            lemma_token_constants();
        }
        match self {
            DownstreamProtocol::Tunnel(TunnelProtocol::Http1) => HTTP1_ALPN,
            DownstreamProtocol::Tunnel(TunnelProtocol::Http2) => HTTP2_ALPN,
            DownstreamProtocol::Tunnel(TunnelProtocol::Http3) => HTTP3_ALPN,
            DownstreamProtocol::Ping(PingProtocol::Http1) => HTTP1_ALPN,
            DownstreamProtocol::Ping(PingProtocol::Http2) => HTTP2_ALPN,
            DownstreamProtocol::Ping(PingProtocol::Http3) => HTTP3_ALPN,
            DownstreamProtocol::ServiceMessenger(ServiceMessengerProtocol::Http1) => HTTP1_ALPN,
            DownstreamProtocol::ServiceMessenger(ServiceMessengerProtocol::Http3) => HTTP3_ALPN,
        }
    }
}

} // verus!
