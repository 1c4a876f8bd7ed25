//! The reason the TV was last turned off, kept across reboots so that the
//! service knows whether to wake the TV when it next starts.
//!
//! Only "shutdown" needs remembering: sleep/wake and lock/unlock are handled
//! by live events within the same session.

use vstd::prelude::*;
use crate::config::FileRead;
use crate::paths::{is_join_of, join};
use crate::text::{same_text, trim, trimmed};

verus! {

/// The state file `state.txt` in the configuration directory `dir`.
pub fn state_path(dir: &str) -> (r: String)
    ensures
        is_join_of(dir@, "state.txt"@, r@),
{
    let name = "state.txt";
    proof {
        reveal_strlit("state.txt");
    }
    join(dir, name)
}

/// What the state file holds after a clean shutdown turned the TV off.
pub fn shutdown_marker() -> (r: &'static str)
    ensures
        r@ == "shutdown"@,
{
    "shutdown"
}

/// Whether a state file with this read outcome records a clean shutdown:
/// its contents, trimmed, are `shutdown`. A file that cannot be read records
/// nothing.
pub open spec fn records_shutdown(read: FileRead) -> bool {
    match read {
        FileRead::Contents(s) => trimmed(s@) == "shutdown"@,
        _ => false,
    }
}

/// Whether the previous run of the service ended with a clean shutdown
/// (the TV was turned off, so it should be woken now), from what reading
/// the state file gave.
pub fn was_shutdown(read: &FileRead) -> (r: bool)
    ensures
        r == records_shutdown(*read),
{
    match read {
        FileRead::Contents(s) => {
            let t = trim(s.as_str());
            same_text(t.as_str(), shutdown_marker())
        },
        _ => false,
    }
}

/// Law: what a clean shutdown writes to the state file is recognised as a
/// clean shutdown by the next start; a missing (cleared) file is not.
pub proof fn lemma_written_marker_recognised(contents: String)
    requires
        contents@ == "shutdown"@,
    ensures
        records_shutdown(FileRead::Contents(contents)),
        !records_shutdown(FileRead::NotFound),
{
    reveal_strlit("shutdown");
    let s = "shutdown"@;
    assert(!crate::text::is_unicode_whitespace(s.first()));
    assert(!crate::text::is_unicode_whitespace(s.last()));
    assert(trimmed(s) == s);
}

} // verus!
