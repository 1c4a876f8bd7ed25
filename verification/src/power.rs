//! Power events and the shutdown-or-restart question.

use vstd::prelude::*;

verus! {

/// All events that can drive the service's TV-control logic.
#[derive(Debug, Clone, Copy, PartialEq, Eq)]
pub enum AppEvent {
    /// PC going to sleep / hibernate.
    Sleep,
    /// PC waking from sleep.
    Wake,
    /// The user's session was locked.
    Lock,
    /// The user's session was unlocked.
    Unlock,
    /// System is shutting down. `reboot == true` means it will restart.
    Shutdown { reboot: bool },
    /// The service control manager asked the service to stop.
    Stop,
}

/// Power broadcast: the system is suspending.
pub const PBT_APMSUSPEND: u32 = 0x0004;

/// Power broadcast: the system resumed automatically.
pub const PBT_APMRESUMEAUTOMATIC: u32 = 0x0012;

/// The event that an OS power notification of type `power_type` stands for;
/// other notifications are ignored.
pub fn power_event(power_type: u32) -> (r: Option<AppEvent>)
    ensures
        power_type == PBT_APMSUSPEND ==> r == Some(AppEvent::Sleep),
        power_type == PBT_APMRESUMEAUTOMATIC ==> r == Some(AppEvent::Wake),
        power_type != PBT_APMSUSPEND && power_type != PBT_APMRESUMEAUTOMATIC ==> r is None,
{
    if power_type == PBT_APMSUSPEND {
        Some(AppEvent::Sleep)
    } else if power_type == PBT_APMRESUMEAUTOMATIC {
        Some(AppEvent::Wake)
    } else {
        None
    }
}

/// What the query for the newest system event 1074 (a process initiating a
/// shutdown or restart) gave.
#[derive(Debug, Clone)]
pub enum ShutdownQuery {
    /// No such event was logged (e.g. the power button was used).
    NoEvent,
    /// The event's XML rendering, as UTF-16LE bytes.
    Rendered(Vec<u8>),
    /// The query failed; the message says how.
    Failed(String),
}

/// The 16-bit code units of UTF-16LE bytes (a trailing odd byte is dropped).
pub open spec fn utf16le_units(b: Seq<u8>) -> Seq<u16> {
    Seq::new(b.len() / 2, |i: int| (b[2 * i] + 256 * b[2 * i + 1]) as u16)
}

/// `>restart<`, as UTF-16 code units: the text of the event's `param5`
/// element when the action is a restart.
pub open spec fn restart_marker() -> Seq<u16> {
    seq![0x3Eu16, 0x72u16, 0x65u16, 0x73u16, 0x74u16, 0x61u16, 0x72u16, 0x74u16, 0x3Cu16]
}

/// `pat` occurs in `s` at position `i`.
pub open spec fn occurs_at(s: Seq<u16>, pat: Seq<u16>, i: int) -> bool {
    0 <= i && i + pat.len() <= s.len() && s.subrange(i, i + pat.len()) == pat
}

/// `pat` occurs somewhere in `s`.
pub open spec fn occurs_in(s: Seq<u16>, pat: Seq<u16>) -> bool {
    exists|i: int| occurs_at(s, pat, i)
}

/// The query says that the system restarts: the event's XML holds
/// `>restart<`.
pub open spec fn is_restart(query: ShutdownQuery) -> bool {
    match query {
        ShutdownQuery::Rendered(b) => occurs_in(utf16le_units(b@), restart_marker()),
        _ => false,
    }
}

/// Whether the system is restarting rather than shutting down.
/// It restarts when the newest event 1074 says `restart`, i.e. its XML
/// (UTF-16LE) holds `>restart<`. The marker is ASCII, and decoding (even
/// lossily) turns each ASCII code unit into that character and no other
/// unit into an ASCII one, so the text holds the marker exactly when the
/// code units do. When there is no such event, or the question cannot be
/// answered, it is treated as a shutdown (the safer choice for an OLED).
pub fn is_reboot(query: &ShutdownQuery) -> (r: bool)
    ensures
        r == is_restart(*query),
{
    match query {
        ShutdownQuery::Rendered(b) => {
            let units = utf16le_decode(b.as_slice());
            contains_restart_marker(&units)
        },
        _ => false,
    }
}

/// The UTF-16 code units of UTF-16LE bytes.
pub fn utf16le_decode(b: &[u8]) -> (r: Vec<u16>)
    ensures
        r@ == utf16le_units(b@),
{
    let n = b.len() / 2;
    let mut out: Vec<u16> = Vec::new();
    let mut i: usize = 0;
    while i < n
        invariant
            n == b@.len() / 2,
            n == b.len() / 2,
            i <= n,
            out@ =~= utf16le_units(b@).subrange(0, i as int),
        decreases n - i,
    {
        assert(2 * i + 1 < b.len()) by (nonlinear_arith)
            requires
                i < n,
                n == b.len() / 2,
        ;
        let lo = b[2 * i] as u16;
        let hi = b[2 * i + 1] as u16;
        out.push(lo + 256 * hi);
        i = i + 1;
    }
    out
}

/// Whether the code units hold `>restart<`.
fn contains_restart_marker(s: &Vec<u16>) -> (r: bool)
    ensures
        r == occurs_in(s@, restart_marker()),
{
    let pat: [u16; 9] = [0x3E, 0x72, 0x65, 0x73, 0x74, 0x61, 0x72, 0x74, 0x3C];
    assert(pat@ =~= restart_marker());
    if s.len() < 9 {
        assert forall|i: int| !occurs_at(s@, restart_marker(), i) by {}
        return false;
    }
    let last = s.len() - 9;
    let mut i: usize = 0;
    while i <= last
        invariant
            pat@ == restart_marker(),
            9 <= s@.len(),
            last == s@.len() - 9,
            last + 9 == s.len(),
            i <= last + 1,
            forall|j: int| 0 <= j < i ==> !occurs_at(s@, restart_marker(), j),
        decreases last + 1 - i,
    {
        let mut k: usize = 0;
        while k < 9 && s[i + k] == pat[k]
            invariant
                pat@ == restart_marker(),
                9 <= s@.len(),
                last == s@.len() - 9,
                last + 9 == s.len(),
                i <= last,
                k <= 9,
                forall|m: int| 0 <= m < k ==> s@[i + m] == pat@[m],
            decreases 9 - k,
        {
            k = k + 1;
        }
        if k == 9 {
            assert(s@.subrange(i as int, i + 9) =~= restart_marker());
            assert(occurs_at(s@, restart_marker(), i as int));
            return true;
        }
        assert(s@.subrange(i as int, i + 9)[k as int] != restart_marker()[k as int]);
        i = i + 1;
    }
    assert forall|j: int| !occurs_at(s@, restart_marker(), j) by {
        if 0 <= j && j + 9 <= s@.len() {
            assert(j < i);
        }
    }
    false
}

/// `>restart<` as UTF-16LE bytes.
pub open spec fn restart_marker_bytes() -> Seq<u8> {
    seq![
        0x3Eu8, 0x00, 0x72, 0x00, 0x65, 0x00, 0x73, 0x00, 0x74, 0x00, 0x61, 0x00, 0x72, 0x00, 0x74,
        0x00, 0x3C, 0x00,
    ]
}

/// Law: an event rendering whose UTF-16LE bytes hold `>restart<` at a
/// code-unit boundary, however long the rendering and wherever the marker
/// stands, means a restart.
pub proof fn lemma_restart_found_anywhere(b: Vec<u8>, p: Seq<u8>, q: Seq<u8>)
    requires
        p.len() % 2 == 0,
        b@ == p + restart_marker_bytes() + q,
    ensures
        is_restart(ShutdownQuery::Rendered(b)),
{
    let units = utf16le_units(b@);
    let i: int = (p.len() / 2) as int;
    let m = restart_marker_bytes();
    assert(2 * i == p.len());
    assert forall|k: int| 0 <= k < 9 implies #[trigger] units[i + k] == restart_marker()[k] by {
        assert(b@[2 * (i + k)] == m[2 * k]);
        assert(b@[2 * (i + k) + 1] == m[2 * k + 1]);
    }
    assert(units.subrange(i, i + 9) =~= restart_marker());
    assert(occurs_at(units, restart_marker(), i));
}

/// Law: a restart is read only from a rendering whose UTF-16LE bytes hold
/// `>restart<` at a code-unit boundary; anything else (no event, a failed
/// query) counts as a shutdown.
pub proof fn lemma_restart_only_from_marker(q: ShutdownQuery)
    requires
        is_restart(q),
    ensures
        q matches ShutdownQuery::Rendered(b) && exists|i: int|
            0 <= i && i % 2 == 0 && i + 18 <= b@.len() && #[trigger] b@.subrange(i, i + 18)
                == restart_marker_bytes(),
{
    if let ShutdownQuery::Rendered(b) = q {
        let units = utf16le_units(b@);
        let j = choose|j: int| occurs_at(units, restart_marker(), j);
        let m = restart_marker_bytes();
        assert forall|t: int| 0 <= t < 18 implies b@.subrange(2 * j, 2 * j + 18)[t] == m[t] by {
            let k = t / 2;
            assert(units.subrange(j, j + 9)[k] == restart_marker()[k]);
            let lo = b@[2 * (j + k)];
            let hi = b@[2 * (j + k) + 1];
            assert(units[j + k] == (lo + 256 * hi) as u16);
            assert(restart_marker()[k] < 256);
            assert(hi == 0 && lo == restart_marker()[k]) by (nonlinear_arith)
                requires
                    (lo + 256 * hi) as u16 == restart_marker()[k],
                    restart_marker()[k] < 256,
                    lo < 256,
                    hi < 256,
            ;
            if t % 2 == 0 {
                assert(2 * j + t == 2 * (j + k));
            } else {
                assert(2 * j + t == 2 * (j + k) + 1);
            }
        }
        assert(b@.subrange(2 * j, 2 * j + 18) =~= m);
    }
}

} // verus!
