//! Diagnosing WebSocket connectivity to the TV with a raw HTTP upgrade
//! request, bypassing the WebSocket library, to see what the TV answers.

use vstd::prelude::*;
use vstd::utf8::encode_utf8;
use crate::text::{bytes_start_with, decimal, lemma_decimal_injective, lemma_decimal_len, push_decimal, starts_with};

verus! {

/// The `Sec-WebSocket-Key` of the probe: the example key of RFC 6455, so the
/// answer can be checked by hand.
pub open spec fn probe_key() -> Seq<char> {
    "dGhlIHNhbXBsZSBub25jZQ=="@
}

/// The HTTP request that asks the TV at `ip:port` to switch to WebSocket.
pub open spec fn upgrade_request_text(ip: Seq<char>, port: u16) -> Seq<char> {
    "GET / HTTP/1.1\r\nHost: "@ + ip + ":"@ + decimal(port as nat)
        + "\r\nUpgrade: websocket\r\nConnection: Upgrade\r\nSec-WebSocket-Key: "@ + probe_key()
        + "\r\nSec-WebSocket-Version: 13\r\nOrigin: http://"@ + ip + "\r\n\r\n"@
}

/// The minimal WebSocket upgrade request for the TV at `ip:port`.
pub fn upgrade_request(ip: &str, port: u16) -> (r: String)
    ensures
        r@ == upgrade_request_text(ip@, port),
{
    let mut r = "GET / HTTP/1.1\r\nHost: ".to_owned();
    r.append(ip);
    r.append(":");
    push_decimal(&mut r, port);
    r.append("\r\nUpgrade: websocket\r\nConnection: Upgrade\r\nSec-WebSocket-Key: ");
    r.append("dGhlIHNhbXBsZSBub25jZQ==");
    r.append("\r\nSec-WebSocket-Version: 13\r\nOrigin: http://");
    r.append(ip);
    r.append("\r\n\r\n");
    r
}

/// What the TV's answer to the upgrade request says.
#[derive(Debug, Clone, Copy, PartialEq, Eq)]
pub enum ProbeVerdict {
    /// `HTTP/1.1 101`: WebSocket is available.
    Switched,
    /// `HTTP/1.1 400`: the upgrade was rejected.
    BadRequest,
    /// `HTTP/1.1 403`: access is not allowed.
    Forbidden,
    /// Anything else.
    Unexpected,
}

/// The verdict on an answer that begins with the bytes `b`. Reading the
/// answer as text (invalid UTF-8 replaced) does not change which of these
/// ASCII status lines it begins with.
pub open spec fn verdict(b: Seq<u8>) -> ProbeVerdict {
    if starts_with(b, encode_utf8("HTTP/1.1 101"@)) {
        ProbeVerdict::Switched
    } else if starts_with(b, encode_utf8("HTTP/1.1 400"@)) {
        ProbeVerdict::BadRequest
    } else if starts_with(b, encode_utf8("HTTP/1.1 403"@)) {
        ProbeVerdict::Forbidden
    } else {
        ProbeVerdict::Unexpected
    }
}

/// Classifies the TV's answer to the upgrade request.
pub fn classify_response(answer: &[u8]) -> (r: ProbeVerdict)
    ensures
        r == verdict(answer@),
{
    if bytes_start_with(answer, "HTTP/1.1 101".as_bytes()) {
        ProbeVerdict::Switched
    } else if bytes_start_with(answer, "HTTP/1.1 400".as_bytes()) {
        ProbeVerdict::BadRequest
    } else if bytes_start_with(answer, "HTTP/1.1 403".as_bytes()) {
        ProbeVerdict::Forbidden
    } else {
        ProbeVerdict::Unexpected
    }
}

/// Law: the Host header names the probed address and port: the request's
/// second line is `Host: ` followed by `ip`, `:` and the port in decimal.
pub proof fn lemma_host_line_names_the_port(ip: Seq<char>, port: u16)
    ensures
        ({
            let r = upgrade_request_text(ip, port);
            let first = "GET / HTTP/1.1\r\n"@;
            let host = "Host: "@ + ip + ":"@ + decimal(port as nat) + "\r\n"@;
            &&& r.len() >= (first.len() + host.len()) as int
            &&& r.subrange(0, first.len() as int) == first
            &&& r.subrange(first.len() as int, (first.len() + host.len()) as int) == host
        }),
{
    reveal_strlit("GET / HTTP/1.1\r\nHost: ");
    reveal_strlit("GET / HTTP/1.1\r\n");
    reveal_strlit("Host: ");
    reveal_strlit("\r\nUpgrade: websocket\r\nConnection: Upgrade\r\nSec-WebSocket-Key: ");
    reveal_strlit("\r\n");
    let r = upgrade_request_text(ip, port);
    let first = "GET / HTTP/1.1\r\n"@;
    let host = "Host: "@ + ip + ":"@ + decimal(port as nat) + "\r\n"@;
    let head = "GET / HTTP/1.1\r\nHost: "@ + ip + ":"@ + decimal(port as nat)
        + "\r\nUpgrade: websocket\r\nConnection: Upgrade\r\nSec-WebSocket-Key: "@;
    assert(head == first + host + head.subrange((first.len() + host.len()) as int, head.len() as int)) by {
        assert(head =~= first + host + head.subrange((first.len() + host.len()) as int, head.len() as int));
    }
    assert(r.subrange(0, head.len() as int) =~= head);
    assert(r.subrange(0, first.len() as int) =~= head.subrange(0, first.len() as int));
    assert(r.subrange(first.len() as int, (first.len() + host.len()) as int) =~= head.subrange(
        first.len() as int,
        (first.len() + host.len()) as int,
    ));
}

/// Law: requests that probe different ports of the same address differ.
pub proof fn lemma_requests_differ_by_port(ip: Seq<char>, p1: u16, p2: u16)
    requires
        p1 != p2,
    ensures
        upgrade_request_text(ip, p1) != upgrade_request_text(ip, p2),
{
    let a = "GET / HTTP/1.1\r\nHost: "@ + ip + ":"@;
    let tail = "\r\nUpgrade: websocket\r\nConnection: Upgrade\r\nSec-WebSocket-Key: "@ + probe_key()
        + "\r\nSec-WebSocket-Version: 13\r\nOrigin: http://"@ + ip + "\r\n\r\n"@;
    let d1 = decimal(p1 as nat);
    let d2 = decimal(p2 as nat);
    let r1 = upgrade_request_text(ip, p1);
    let r2 = upgrade_request_text(ip, p2);
    assert(r1 =~= a + d1 + tail);
    assert(r2 =~= a + d2 + tail);
    if r1 == r2 {
        assert(d1.len() == d2.len());
        assert(d1 =~= r1.subrange(a.len() as int, (a.len() + d1.len()) as int));
        assert(d2 =~= r2.subrange(a.len() as int, (a.len() + d2.len()) as int));
        lemma_decimal_injective(p1 as nat, p2 as nat);
    }
}

/// `HTTP/1.1 ` as bytes.
pub open spec fn http11_prefix() -> Seq<u8> {
    seq![0x48u8, 0x54, 0x54, 0x50, 0x2F, 0x31, 0x2E, 0x31, 0x20]
}

/// `b` begins with the status line start `HTTP/1.1 ` followed by the
/// three bytes `code`.
pub open spec fn has_status(b: Seq<u8>, code: Seq<u8>) -> bool {
    b.len() >= 12 && b.subrange(0, 9) == http11_prefix() && b.subrange(9, 12) == code
}

proof fn lemma_status_text_bytes(t: Seq<char>, code: Seq<u8>)
    requires
        t.len() == 12,
        forall|i: int| 0 <= i < 12 ==> '\0' <= #[trigger] t[i] <= '\u{7f}',
        forall|i: int| 0 <= i < 9 ==> #[trigger] (t[i] as u8) == http11_prefix()[i],
        code.len() == 3,
        forall|i: int| 9 <= i < 12 ==> #[trigger] (t[i] as u8) == code[i - 9],
    ensures
        encode_utf8(t) == http11_prefix() + code,
{
    vstd::utf8::is_ascii_chars_encode_utf8(t);
    assert(encode_utf8(t) =~= http11_prefix() + code);
}

/// The bytes of the three status-line prefixes the probe looks for.
proof fn lemma_status_prefixes()
    ensures
        encode_utf8("HTTP/1.1 101"@) == http11_prefix() + seq![0x31u8, 0x30, 0x31],
        encode_utf8("HTTP/1.1 400"@) == http11_prefix() + seq![0x34u8, 0x30, 0x30],
        encode_utf8("HTTP/1.1 403"@) == http11_prefix() + seq![0x34u8, 0x30, 0x33],
{
    reveal_strlit("HTTP/1.1 101");
    reveal_strlit("HTTP/1.1 400");
    reveal_strlit("HTTP/1.1 403");
    lemma_status_text_bytes("HTTP/1.1 101"@, seq![0x31u8, 0x30, 0x31]);
    lemma_status_text_bytes("HTTP/1.1 400"@, seq![0x34u8, 0x30, 0x30]);
    lemma_status_text_bytes("HTTP/1.1 403"@, seq![0x34u8, 0x30, 0x33]);
}

proof fn lemma_starts_with_status(b: Seq<u8>, code: Seq<u8>)
    requires
        code.len() == 3,
    ensures
        starts_with(b, http11_prefix() + code) <==> has_status(b, code),
{
    let pre = http11_prefix() + code;
    assert(pre.subrange(0, 9) =~= http11_prefix());
    assert(pre.subrange(9, 12) =~= code);
    if starts_with(b, pre) {
        assert(b.subrange(0, 12) == pre);
        assert(b.subrange(0, 9) =~= b.subrange(0, 12).subrange(0, 9));
        assert(b.subrange(9, 12) =~= b.subrange(0, 12).subrange(9, 12));
    }
    if has_status(b, code) {
        assert(pre.len() == 12);
        assert forall|i: int| 0 <= i < 12 implies b.subrange(0, 12)[i] == pre[i] by {
            if i < 9 {
                assert(b.subrange(0, 9)[i] == b[i]);
            } else {
                assert(b.subrange(9, 12)[i - 9] == b[i]);
            }
        }
        assert(b.subrange(0, 12) =~= pre);
    }
}

/// Law: each verdict but `Unexpected` is given only to an answer whose
/// status line begins `HTTP/1.1` with its own code (101, 400, 403); an answer
/// with any other three bytes after `HTTP/1.1 ` is `Unexpected`.
pub proof fn lemma_verdict_follows_status_code(b: Seq<u8>)
    ensures
        verdict(b) == ProbeVerdict::Switched <==> has_status(b, seq![0x31u8, 0x30, 0x31]),
        verdict(b) == ProbeVerdict::BadRequest <==> has_status(b, seq![0x34u8, 0x30, 0x30]),
        verdict(b) == ProbeVerdict::Forbidden <==> has_status(b, seq![0x34u8, 0x30, 0x33]),
        (b.len() >= 12 && b.subrange(0, 9) == http11_prefix() && b.subrange(9, 12) != seq![0x31u8, 0x30, 0x31]
            && b.subrange(9, 12) != seq![0x34u8, 0x30, 0x30] && b.subrange(9, 12) != seq![0x34u8, 0x30, 0x33])
            ==> verdict(b) == ProbeVerdict::Unexpected,
{
    lemma_status_prefixes();
    lemma_starts_with_status(b, seq![0x31u8, 0x30, 0x31]);
    lemma_starts_with_status(b, seq![0x34u8, 0x30, 0x30]);
    lemma_starts_with_status(b, seq![0x34u8, 0x30, 0x33]);
    assert(seq![0x31u8, 0x30, 0x31] != seq![0x34u8, 0x30, 0x30]) by {
        assert(seq![0x31u8, 0x30, 0x31][0] != seq![0x34u8, 0x30, 0x30][0]);
    }
    assert(seq![0x31u8, 0x30, 0x31] != seq![0x34u8, 0x30, 0x33]) by {
        assert(seq![0x31u8, 0x30, 0x31][0] != seq![0x34u8, 0x30, 0x33][0]);
    }
    assert(seq![0x34u8, 0x30, 0x30] != seq![0x34u8, 0x30, 0x33]) by {
        assert(seq![0x34u8, 0x30, 0x30][2] != seq![0x34u8, 0x30, 0x33][2]);
    }
}

} // verus!
