//! The ALPN protocol identifiers that the server recognises.

use vstd::prelude::*;

verus! {

/// ALPN identifier negotiated for HTTP/1.1.
pub const HTTP1_ALPN: &'static str = "http/1.1";

/// ALPN identifier negotiated for HTTP/2.
pub const HTTP2_ALPN: &'static str = "h2";

/// ALPN identifier negotiated for HTTP/3.
pub const HTTP3_ALPN: &'static str = "h3";

/// The characters of the HTTP/1.1 identifier.
pub open spec fn http1_token() -> Seq<char> {
    seq!['h', 't', 't', 'p', '/', '1', '.', '1']
}

/// The characters of the HTTP/2 identifier.
pub open spec fn http2_token() -> Seq<char> {
    seq!['h', '2']
}

/// The characters of the HTTP/3 identifier.
pub open spec fn http3_token() -> Seq<char> {
    seq!['h', '3']
}

/// The three constants hold exactly the characters of their tokens.
pub proof fn lemma_token_constants()
    ensures
        HTTP1_ALPN@ == http1_token(),
        HTTP2_ALPN@ == http2_token(),
        HTTP3_ALPN@ == http3_token(),
{
    reveal_strlit("http/1.1");
    reveal_strlit("h2");
    reveal_strlit("h3");
    assert(HTTP1_ALPN@ =~= http1_token());
    assert(HTTP2_ALPN@ =~= http2_token());
    assert(HTTP3_ALPN@ =~= http3_token());
}

/// The three tokens are pairwise different.
pub proof fn lemma_tokens_differ()
    ensures
        http1_token() != http2_token(),
        http1_token() != http3_token(),
        http2_token() != http3_token(),
{
    assert(http1_token().len() == 8);
    assert(http2_token().len() == 2);
    assert(http3_token().len() == 2);
    assert(http2_token()[1] == '2');
    assert(http3_token()[1] == '3');
}

} // verus!
