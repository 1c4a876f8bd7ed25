//! Configuration: the TV's address, timeouts, and where files live.

use vstd::prelude::*;
use crate::paths::{is_join_of, join};
use crate::text::{trim, trimmed};

verus! {

/// Top-level configuration (read from `config.toml` in the config directory).
#[derive(Debug, Clone)]
pub struct Config {
    pub tv: TvConfig,
    pub timeouts: TimeoutConfig,
}

/// How to reach the TV.
#[derive(Debug, Clone)]
pub struct TvConfig {
    /// IPv4 address of the TV, e.g. "192.168.1.50".
    pub ip: String,
    /// MAC address for Wake-on-LAN, e.g. "A8:23:FE:01:02:03".
    pub mac: String,
    /// Path where the paired client key is stored.
    pub client_key_path: String,
}

/// Timeouts of the TV connection, in seconds.
#[derive(Debug, Clone, Copy)]
pub struct TimeoutConfig {
    /// Seconds to wait for the WebSocket connection.
    pub connect_secs: u64,
    /// Seconds to wait for an SSAP acknowledgement.
    pub ack_secs: u64,
}

impl Default for TimeoutConfig {
    fn default() -> (r: Self)
        ensures
            r.connect_secs == 3,
            r.ack_secs == 2,
    {
        TimeoutConfig { connect_secs: default_connect_secs(), ack_secs: default_ack_secs() }
    }
}

/// Seconds to wait for the WebSocket connection when the file says nothing.
pub fn default_connect_secs() -> (r: u64)
    ensures
        r == 3,
{
    3
}

/// Seconds to wait for an acknowledgement when the file says nothing.
pub fn default_ack_secs() -> (r: u64)
    ensures
        r == 2,
{
    2
}

/// The directory under `%PROGRAMDATA%` that holds the service's files.
pub open spec fn service_dir_name() -> Seq<char> {
    seq!['l', 'g', 't', 'v', '-', 's', 'e', 'r', 'v', 'i', 'c', 'e']
}

/// The configuration directory: `%PROGRAMDATA%\lgtv-service` when the
/// variable is set (its value is `programdata`), else the current directory.
pub fn config_dir(programdata: Option<&str>) -> (r: String)
    ensures
        match programdata {
            Some(p) => is_join_of(p@, service_dir_name(), r@),
            None => r@ == seq!['.'],
        },
{
    match programdata {
        Some(p) => {
            let name = "lgtv-service";
            proof {
                reveal_strlit("lgtv-service");
                assert(name@ =~= service_dir_name());
            }
            join(p, name)
        },
        None => {
            let r = ".";
            proof {
                reveal_strlit(".");
            }
            r.to_owned()
        },
    }
}

/// The configuration file `config.toml` in the configuration directory `dir`.
pub fn config_path(dir: &str) -> (r: String)
    ensures
        is_join_of(dir@, "config.toml"@, r@),
{
    let name = "config.toml";
    proof {
        reveal_strlit("config.toml");
    }
    join(dir, name)
}

/// Where the client key is kept unless the file says otherwise:
/// `client_key.txt` in the configuration directory `dir`.
pub fn default_key_path(dir: &str) -> (r: String)
    ensures
        is_join_of(dir@, "client_key.txt"@, r@),
{
    let name = "client_key.txt";
    proof {
        reveal_strlit("client_key.txt");
    }
    join(dir, name)
}

/// What reading a whole text file gave.
#[derive(Debug, Clone)]
pub enum FileRead {
    /// The file's contents.
    Contents(String),
    /// There is no such file.
    NotFound,
    /// The file could not be read; the message says why.
    Failed(String),
}

/// The stored client key, from what reading its file gave: the trimmed
/// contents, nothing when the file does not exist yet, and the failure
/// otherwise.
pub fn load_client_key(read: FileRead) -> (r: Result<Option<String>, String>)
    ensures
        match read {
            FileRead::Contents(s) => r matches Ok(Some(k)) && k@ == trimmed(s@),
            FileRead::NotFound => r matches Ok(None),
            FileRead::Failed(m) => r matches Err(e) && e@ == m@,
        },
{
    match read {
        FileRead::Contents(s) => Ok(Some(trim(s.as_str()))),
        FileRead::NotFound => Ok(None),
        FileRead::Failed(m) => Err(m),
    }
}

} // verus!
