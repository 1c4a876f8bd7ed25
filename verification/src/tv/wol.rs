//! Wake-on-LAN magic packets.

use vstd::prelude::*;
use vstd::utf8::encode_utf8;

verus! {

/// Why no magic packet could be made (or sent).
#[derive(Debug, Clone, Copy, PartialEq, Eq)]
pub enum WolError {
    /// The MAC address text does not have the length of `XX:XX:XX:XX:XX:XX`.
    InvalidMacLength,
    /// The MAC address text has that length but another form.
    InvalidMacFormat,
    /// The packet could not be sent.
    SendFailure,
}

/// An ASCII hexadecimal digit, in either case.
pub open spec fn is_hex_digit(b: u8) -> bool {
    ||| 0x30 <= b <= 0x39
    ||| 0x41 <= b <= 0x46
    ||| 0x61 <= b <= 0x66
}

/// The value of a hexadecimal digit.
pub open spec fn hex_value(b: u8) -> int {
    if b <= 0x39 {
        b - 0x30
    } else if b <= 0x46 {
        b - 0x41 + 10
    } else {
        b - 0x61 + 10
    }
}

/// The pieces of a MAC address text between its `:` separators, as
/// `str::split(':')` gives them (as bytes; `:` never occurs inside a
/// multi-byte UTF-8 character).
pub open spec fn split_colons(b: Seq<u8>) -> Seq<Seq<u8>>
    decreases b.len(),
{
    if b.len() == 0 {
        seq![Seq::<u8>::empty()]
    } else {
        let rest = split_colons(b.drop_last());
        if b.last() == 0x3A {
            rest.push(Seq::<u8>::empty())
        } else {
            rest.update(rest.len() - 1, rest.last().push(b.last()))
        }
    }
}

/// A piece that hex-decodes: an even number of hexadecimal digits.
pub open spec fn is_hex_piece(p: Seq<u8>) -> bool {
    p.len() % 2 == 0 && forall|i: int| 0 <= i < p.len() ==> is_hex_digit(#[trigger] p[i])
}

/// The bytes that a hex piece denotes, two digits per byte.
pub open spec fn decode_hex(p: Seq<u8>) -> Seq<u8> {
    Seq::new(p.len() / 2, |k: int| (hex_value(p[2 * k]) * 16 + hex_value(p[2 * k + 1])) as u8)
}

/// The first `k` pieces all hex-decode.
pub open spec fn leading_hex(ps: Seq<Seq<u8>>, k: int) -> bool {
    forall|j: int| 0 <= j < k ==> is_hex_piece(#[trigger] ps[j])
}

/// How many bytes the pieces decode to.
pub open spec fn decoded_len(ps: Seq<Seq<u8>>) -> int
    decreases ps.len(),
{
    if ps.len() == 0 {
        0
    } else {
        decoded_len(ps.drop_last()) + ps.last().len() / 2
    }
}

/// The bytes that the pieces decode to, in order.
pub open spec fn decoded_mac(ps: Seq<Seq<u8>>) -> Seq<u8>
    decreases ps.len(),
{
    if ps.len() == 0 {
        Seq::empty()
    } else {
        decoded_mac(ps.drop_last()) + decode_hex(ps.last())
    }
}

/// wakey accepts the 17-byte text `b`: at most six pieces, all hex, six
/// bytes in all (e.g. `A8:23:FE:01:02:03`, but also `0102:03:04:05::06`).
pub open spec fn mac_text_accepted(b: Seq<u8>) -> bool {
    let ps = split_colons(b);
    &&& b.len() == 17
    &&& ps.len() <= 6
    &&& leading_hex(ps, ps.len() as int)
    &&& decoded_len(ps) == 6
}

/// wakey panics on the 17-byte text `b`: seven leading pieces hex-decode
/// (more than its six-slot buffer), or at most six pieces all decode to a
/// number of bytes other than six.
pub open spec fn wakey_panics(b: Seq<u8>) -> bool {
    let ps = split_colons(b);
    &&& b.len() == 17
    &&& {
        ||| ps.len() >= 7 && leading_hex(ps, 7)
        ||| ps.len() <= 6 && leading_hex(ps, ps.len() as int) && decoded_len(ps) != 6
    }
}

/// What the library makes of the MAC address text `b` (UTF-8 bytes): the
/// magic packet wakey builds, or the refusal wakey gives. Where wakey would
/// panic, the text is refused as `InvalidMacFormat`.
pub open spec fn packet_for_mac_text(b: Seq<u8>) -> Result<Seq<u8>, WolError> {
    if b.len() != 17 {
        Err(WolError::InvalidMacLength)
    } else if mac_text_accepted(b) {
        Ok(magic_packet_for(decoded_mac(split_colons(b))))
    } else {
        Err(WolError::InvalidMacFormat)
    }
}

/// The magic packet for `mac`: six `0xFF` bytes, then `mac` sixteen times.
pub open spec fn magic_packet_for(mac: Seq<u8>) -> Seq<u8> {
    Seq::new(102, |i: int| if i < 6 { 0xFFu8 } else { mac[(i - 6) % 6] })
}

/// `wakey::WolPacket::from_string(mac, ':')`, giving the packet's bytes.
/// Claimed, from wakey 0.4.1's source (with hex 0.4 and arrayvec 0.7): a
/// text whose UTF-8 length is not 17 is refused as `InvalidMacLength`; else
/// the text is split at `:` and each piece hex-decoded, in order. A piece
/// that does not decode, met before a seventh piece decodes, gives
/// `InvalidMacFormat`; at most six pieces that decode to six bytes in all
/// give the magic packet of those bytes. The texts on which wakey panics
/// (`wakey_panics`) are not admitted.
#[verifier::external_body]
fn wakey_packet(mac: &str) -> (r: Result<Vec<u8>, WolError>)
    requires
        !wakey_panics(encode_utf8(mac@)),
    ensures
        encode_utf8(mac@).len() != 17 ==> (r is Err && r->Err_0 == WolError::InvalidMacLength),
        mac_text_accepted(encode_utf8(mac@)) ==> r is Ok && r->Ok_0@ == magic_packet_for(decoded_mac(split_colons(encode_utf8(mac@)))),
        encode_utf8(mac@).len() == 17 && !mac_text_accepted(encode_utf8(mac@)) ==> (r is Err && r->Err_0 == WolError::InvalidMacFormat),
{
    match wakey::WolPacket::from_string(mac, ':') {
        Ok(packet) => Ok(packet.into_inner().to_vec()),
        Err(wakey::WakeyError::InvalidMacLength) => Err(WolError::InvalidMacLength),
        Err(wakey::WakeyError::InvalidMacFormat) => Err(WolError::InvalidMacFormat),
        Err(wakey::WakeyError::SendFailure(_)) => Err(WolError::SendFailure),
    }
}

/// Whether wakey would panic on the text with UTF-8 bytes `b`.
pub fn mac_text_panics_wakey(b: &[u8]) -> (r: bool)
    ensures
        r == wakey_panics(b@),
{
    if b.len() != 17 {
        return false;
    }
    let ghost bs = b@;
    let n = b.len();
    let mut i: usize = 0;
    let mut start: usize = 0;
    let mut count: usize = 0;
    let mut lead: usize = 0;
    let mut total: usize = 0;
    let mut cur_hex = true;
    assert(bs.take(0) =~= Seq::<u8>::empty());
    while i < n
        invariant
            n == 17,
            bs == b@,
            bs.len() == 17,
            0 <= start <= i <= n,
            count <= i,
            split_colons(bs.take(i as int)).len() == count + 1,
            split_colons(bs.take(i as int))[count as int] == bs.subrange(start as int, i as int),
            lead <= count,
            leading_hex(split_colons(bs.take(i as int)), lead as int),
            lead < count ==> !is_hex_piece(split_colons(bs.take(i as int))[lead as int]),
            total == decoded_len(split_colons(bs.take(i as int)).take(count as int)),
            total <= start,
            cur_hex == (forall|k: int| start <= k < i ==> is_hex_digit(#[trigger] bs[k])),
        decreases n - i,
    {
        let ghost ps = split_colons(bs.take(i as int));
        let c = b[i];
        assert(bs.take(i + 1).drop_last() =~= bs.take(i as int));
        assert(bs.take(i + 1).last() == c);
        if c == 0x3A {
            let valid = cur_hex && (i - start) % 2 == 0;
            proof {
                let piece = bs.subrange(start as int, i as int);
                assert(valid == is_hex_piece(piece)) by {
                    if cur_hex {
                        assert forall|k: int| 0 <= k < piece.len() implies is_hex_digit(#[trigger] piece[k]) by {
                            assert(piece[k] == bs[start + k]);
                        }
                    }
                    if is_hex_piece(piece) {
                        assert forall|k: int| start <= k < i implies is_hex_digit(#[trigger] bs[k]) by {
                            assert(bs[k] == piece[k - start]);
                        }
                    }
                }
                let ps2 = split_colons(bs.take(i + 1));
                assert(ps2 == ps.push(Seq::<u8>::empty()));
                assert(ps2.take(count + 1) =~= ps);
                assert(ps.drop_last() =~= ps.take(count as int));
                assert(bs.subrange((i + 1) as int, (i + 1) as int) =~= Seq::<u8>::empty());
            }
            if lead == count && valid {
                lead = lead + 1;
            }
            total = total + (i - start) / 2;
            count = count + 1;
            start = i + 1;
            cur_hex = true;
        } else {
            let h = (0x30 <= c && c <= 0x39) || (0x41 <= c && c <= 0x46) || (0x61 <= c && c <= 0x66);
            proof {
                let ps2 = split_colons(bs.take(i + 1));
                assert(ps2 == ps.update(count as int, ps.last().push(c)));
                assert(ps2[count as int] =~= bs.subrange(start as int, i + 1));
                assert(ps2.take(count as int) =~= ps.take(count as int));
                assert forall|j: int| 0 <= j < count implies ps2[j] == ps[j] by {}
            }
            cur_hex = cur_hex && h;
        }
        i = i + 1;
    }
    proof {
        assert(bs.take(17) =~= bs);
    }
    let ghost ps = split_colons(bs);
    let last_valid = cur_hex && (n - start) % 2 == 0;
    proof {
        let piece = bs.subrange(start as int, n as int);
        assert(last_valid == is_hex_piece(piece)) by {
            if cur_hex {
                assert forall|k: int| 0 <= k < piece.len() implies is_hex_digit(#[trigger] piece[k]) by {
                    assert(piece[k] == bs[start + k]);
                }
            }
            if is_hex_piece(piece) {
                assert forall|k: int| start <= k < n implies is_hex_digit(#[trigger] bs[k]) by {
                    assert(bs[k] == piece[k - start]);
                }
            }
        }
        assert(ps.drop_last() =~= ps.take(count as int));
    }
    let pieces = count + 1;
    let full_lead = if lead == count && last_valid { count + 1 } else { lead };
    let all_total = total + (n - start) / 2;
    proof {
        assert(leading_hex(ps, full_lead as int));
        assert(full_lead < pieces ==> !is_hex_piece(ps[full_lead as int]));
        assert(all_total == decoded_len(ps));
    }
    if pieces >= 7 {
        full_lead >= 7
    } else {
        full_lead == pieces && all_total != 6
    }
}

/// The magic packet that wakes the machine whose MAC address is `mac`
/// (`XX:XX:XX:XX:XX:XX`, or another text that wakey reads as six bytes), or
/// why there is none: `InvalidMacLength` when its UTF-8 length is not 17,
/// else `InvalidMacFormat`.
pub fn magic_packet(mac: &str) -> (r: Result<Vec<u8>, WolError>)
    ensures
        match packet_for_mac_text(encode_utf8(mac@)) {
            Ok(p) => r matches Ok(v) && v@ == p,
            Err(e) => r matches Err(f) && f == e,
        },
{
    if mac_text_panics_wakey(mac.as_bytes()) {
        return Err(WolError::InvalidMacFormat);
    }
    wakey_packet(mac)
}

} // verus!
