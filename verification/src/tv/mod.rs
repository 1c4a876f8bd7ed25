//! Turning the TV off and on.

pub mod websocket;
pub mod wol;

use vstd::prelude::*;
use vstd::utf8::encode_utf8;
use crate::config::Config;
use crate::tv::websocket::SsapError;
use crate::tv::wol::{magic_packet, packet_for_mac_text, WolError};

verus! {

/// The magic packet to broadcast to turn the configured TV on, or why there
/// is none (which the service reports and otherwise ignores).
pub fn wake_on_lan(config: &Config) -> (r: Result<Vec<u8>, WolError>)
    ensures
        match packet_for_mac_text(encode_utf8(config.tv.mac@)) {
            Ok(p) => r matches Ok(v) && v@ == p,
            Err(e) => r matches Err(f) && f == e,
        },
{
    magic_packet(config.tv.mac.as_str())
}

/// The result of turning the TV off, given how the SSAP session ended.
/// A TV that cannot be reached (already off, wrong address) is not an
/// error: the failure is only worth a warning, so the result is always `Ok`.
pub fn turn_off(session_result: Result<(), SsapError>) -> (r: Result<(), SsapError>)
    ensures
        r is Ok,
{
    match session_result {
        Ok(()) => Ok(()),
        Err(_) => Ok(()),
    }
}

} // verus!
