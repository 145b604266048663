//! Where the command-line client keeps its files, and when its cached server information is
//! refreshed.
use vstd::prelude::*;
use vstd::string::StrSliceExecFns;
use vstd::string::StringExecFns;

use crate::cdn::HOST;
use crate::types::ServerInformation;

verus! {

/// Seconds after which cached server information is refreshed: one day.
pub const CACHE_REFRESH_SECS: u64 = 86400;

/// Paths of the client's files.
#[derive(Debug)]
pub struct Config {
    pub session_file: String,
    pub base_path: String,
    pub config_path: String,
    pub cached_stuff_path: String,
}

impl Config {
    /// The default layout under a base directory.
    pub fn under(base_path: String) -> (r: Config)
        ensures
            r.base_path@ == base_path@,
            r.config_path@ == base_path@ + "/config.json"@,
            r.session_file@ == base_path@ + "/session"@,
            r.cached_stuff_path@ == base_path@ + "/cached_stuff"@,
    {
        let config_path = base_path.clone().concat("/config.json");
        let session_file = base_path.clone().concat("/session");
        let cached_stuff_path = base_path.clone().concat("/cached_stuff");
        Config { session_file, base_path, config_path, cached_stuff_path }
    }
}

/// Server information cached between runs.
#[derive(Debug)]
pub struct CachedStuff {
    /// Unix time of the last refresh.
    pub last_updated_on: u64,
    /// Refresh once this many seconds have passed since `last_updated_on`.
    pub update_after: u64,
    /// Only changed by the user.
    pub rpc_url: Option<String>,
    pub server_info: Option<ServerInformation>,
}

/// Whether a cache refreshed at `last_updated_on` is stale at `now`: more than `update_after`
/// seconds have passed, or the clock reads earlier than the last refresh.
pub open spec fn spec_cache_is_stale(now: u64, last_updated_on: u64, update_after: u64) -> bool {
    now < last_updated_on || now - last_updated_on > update_after
}

impl Default for CachedStuff {
    fn default() -> (r: Self)
        ensures
            r.last_updated_on == 0,
            r.update_after == CACHE_REFRESH_SECS,
            r.rpc_url matches Some(url) && url@ == HOST@,
            r.server_info is None,
    {
        CachedStuff {
            last_updated_on: 0,
            update_after: CACHE_REFRESH_SECS,
            rpc_url: Some(String::from_str(HOST)),
            server_info: None,
        }
    }
}

impl CachedStuff {
    /// Whether the cache should be refreshed at the Unix time `now`.
    pub fn is_stale(&self, now: u64) -> (r: bool)
        ensures
            r == spec_cache_is_stale(now, self.last_updated_on, self.update_after),
    {
        now < self.last_updated_on || now - self.last_updated_on > self.update_after
    }

    /// Records freshly fetched server information, fetched at the Unix time `now`.
    pub fn record_update(&mut self, server_info: ServerInformation, now: u64)
        ensures
            final(self).server_info == Some(server_info),
            final(self).last_updated_on == now,
            final(self).update_after == old(self).update_after,
            final(self).rpc_url == old(self).rpc_url,
    {
        self.server_info = Some(server_info);
        self.last_updated_on = now;
    }
}

/// A line as typed: without one trailing `\n`, then without one trailing `\r`.
pub open spec fn without_line_ending(s: Seq<char>) -> Seq<char> {
    let a = if s.len() > 0 && s.last() == '\n' {
        s.drop_last()
    } else {
        s
    };
    if a.len() > 0 && a.last() == '\r' {
        a.drop_last()
    } else {
        a
    }
}

/// Removes the line ending that reading a line from a terminal leaves.
pub fn strip_line_ending(line: &str) -> (r: String)
    ensures
        r@ == without_line_ending(line@),
{
    let mut end = line.unicode_len();
    if end > 0 && line.get_char(end - 1) == '\n' {
        end -= 1;
    }
    if end > 0 && line.get_char(end - 1) == '\r' {
        end -= 1;
    }
    let kept = line.substring_char(0, end);
    assert(kept@ =~= without_line_ending(line@));
    String::from_str(kept)
}

} // verus!
