//! Where the service writes its log.

use vstd::prelude::*;
use crate::paths::{is_join_of, join};

verus! {

/// The service's log file: `%PROGRAMDATA%\lgtv-service\lgtv-service.log`,
/// with the current directory in place of `%PROGRAMDATA%` when the variable
/// is not set (`programdata` is its value).
pub fn log_file_path(programdata: Option<&str>) -> (r: String)
    ensures
        exists|dir: Seq<char>|
            {
                &&& is_join_of(
                    match programdata {
                        Some(p) => p@,
                        None => "."@,
                    },
                    "lgtv-service"@,
                    dir,
                )
                &&& is_join_of(dir, "lgtv-service.log"@, r@)
            },
{
    let base = match programdata {
        Some(p) => p,
        None => ".",
    };
    let service = "lgtv-service";
    let file = "lgtv-service.log";
    proof {
        reveal_strlit("lgtv-service");
        reveal_strlit("lgtv-service.log");
    }
    let dir = join(base, service);
    let r = join(dir.as_str(), file);
    assert(is_join_of(dir@, "lgtv-service.log"@, r@));
    r
}

} // verus!
