//! Configuration objects: the shape of the configuration file, the
//! runtime configuration built from it, and log-level parsing.
//!
//! Reading the file from disk and decoding its markup happen at the
//! process edge; this module holds the decoded values and the rules that
//! turn them into a runtime configuration: the listen address family and
//! port defaulting, the empty-means-absent password blacklist, and the
//! case-insensitive log-level names.

use vstd::prelude::*;

verus! {

/// Default port the server listens on when the file names none.
pub const DEFAULT_PORT: u16 = 2747;

/// Logging verbosity filter, from silent to maximal.
#[derive(Clone, Copy, PartialEq, Eq, Structural, Debug)]
pub enum LogLevel {
    Off,
    Error,
    Warn,
    Info,
    Debug,
    Trace,
}

/// ASCII lowercasing of one character; anything outside `A`..`Z` is kept.
pub open spec fn lower_char(c: char) -> char {
    if 65 <= c as u32 && c as u32 <= 90 {
        (((c as u8) + 32) as char)
    } else {
        c
    }
}

/// ASCII lowercasing of a character sequence.
pub open spec fn lower_seq(s: Seq<char>) -> Seq<char> {
    s.map_values(|c: char| lower_char(c))
}

/// The level a textual name stands for, compared case-insensitively; the
/// empty name stands for the default level, an unknown name for nothing.
pub open spec fn level_for(s: Seq<char>) -> Option<LogLevel> {
    let t = lower_seq(s);
    if t == ""@ {
        Some(LogLevel::Info)
    } else if t == "off"@ || t == "none"@ {
        Some(LogLevel::Off)
    } else if t == "trace"@ {
        Some(LogLevel::Trace)
    } else if t == "debug"@ {
        Some(LogLevel::Debug)
    } else if t == "warn"@ || t == "warning"@ {
        Some(LogLevel::Warn)
    } else if t == "err"@ || t == "error"@ {
        Some(LogLevel::Error)
    } else {
        None
    }
}

/// Whether a textual name names a level at all.
pub open spec fn known_level(s: Seq<char>) -> bool {
    level_for(s) is Some
}

/// Lowercasing the level names changes nothing: they are lowercase.
proof fn lemma_level_literals_lower()
    ensures
        lower_seq(""@) == ""@,
        lower_seq("off"@) == "off"@,
        lower_seq("none"@) == "none"@,
        lower_seq("trace"@) == "trace"@,
        lower_seq("debug"@) == "debug"@,
        lower_seq("warn"@) == "warn"@,
        lower_seq("warning"@) == "warning"@,
        lower_seq("err"@) == "err"@,
        lower_seq("error"@) == "error"@,
{
    reveal_strlit("");
    reveal_strlit("off");
    reveal_strlit("none");
    reveal_strlit("trace");
    reveal_strlit("debug");
    reveal_strlit("warn");
    reveal_strlit("warning");
    reveal_strlit("err");
    reveal_strlit("error");
    assert(lower_seq(""@) =~= ""@);
    assert(lower_seq("off"@) =~= "off"@);
    assert(lower_seq("none"@) =~= "none"@);
    assert(lower_seq("trace"@) =~= "trace"@);
    assert(lower_seq("debug"@) =~= "debug"@);
    assert(lower_seq("warn"@) =~= "warn"@);
    assert(lower_seq("warning"@) =~= "warning"@);
    assert(lower_seq("err"@) =~= "err"@);
    assert(lower_seq("error"@) =~= "error"@);
}

/// ASCII lowercasing of one character.
fn lower_char_exec(c: char) -> (r: char)
    ensures
        r == lower_char(c),
{
    let v = c as u32;
    if 65 <= v && v <= 90 {
        ((c as u8) + 32) as char
    } else {
        c
    }
}

/// Case-insensitive string comparison, character by character.
fn eq_ignore_case(s: &str, t: &str) -> (r: bool)
    ensures
        r == (lower_seq(s@) == lower_seq(t@)),
{
    let n = s.unicode_len();
    let m = t.unicode_len();
    if n != m {
        proof {
            assert(lower_seq(s@).len() != lower_seq(t@).len());
        }
        return false;
    }
    let mut i: usize = 0;
    while i < n
        invariant
            i <= n,
            n == s@.len(),
            n == t@.len(),
            forall|j: int| 0 <= j < i ==> lower_char(s@[j]) == lower_char(t@[j]),
        decreases n - i,
    {
        let a = lower_char_exec(s.get_char(i));
        let b = lower_char_exec(t.get_char(i));
        if a != b {
            proof {
                assert(lower_seq(s@)[i as int] != lower_seq(t@)[i as int]);
            }
            return false;
        }
        i += 1;
    }
    proof {
        assert(lower_seq(s@) =~= lower_seq(t@));
    }
    true
}

/// The `[app]` section of the configuration file.
pub struct App {
    pub log_level: Option<String>,
}

/// The `[network]` section of the configuration file.
pub struct Network {
    pub use_ipv6: bool,
    pub port: Option<u16>,
}

/// The `[data]` section of the configuration file.
pub struct Data {
    pub database_url: String,
    pub revisions_dir: String,
}

/// The `[security]` section of the configuration file.
pub struct Security {
    pub password_blacklist_file: String,
}

/// The decoded configuration file.
pub struct ConfigFile {
    pub app: App,
    pub network: Network,
    pub data: Data,
    pub security: Security,
}

/// Where the server listens: the unspecified address of one family, plus
/// a port.
#[derive(Clone, Copy, PartialEq, Eq, Structural, Debug)]
pub struct ListenAddress {
    pub use_ipv6: bool,
    pub port: u16,
}

/// The runtime configuration the process starts from.
pub struct Config {
    pub address: ListenAddress,
    pub log_level: LogLevel,
    pub database_url: String,
    pub revisions_dir: String,
    pub password_blacklist: Option<String>,
}

impl ConfigFile {
    /// Parse a log-level name, case-insensitively; an absent name means
    /// the default level, an unknown one nothing.
    pub fn try_parse_log_level(log_level: Option<&str>) -> (r: Option<LogLevel>)
        ensures
            match log_level {
                Some(s) => r == level_for(s@),
                None => r == Some(LogLevel::Info),
            },
    {
        let s = match log_level {
            Some(s) => s,
            None => {
                return Some(LogLevel::Info);
            },
        };
        proof {
            lemma_level_literals_lower();
        }
        if eq_ignore_case(s, "") {
            Some(LogLevel::Info)
        } else if eq_ignore_case(s, "off") || eq_ignore_case(s, "none") {
            Some(LogLevel::Off)
        } else if eq_ignore_case(s, "trace") {
            Some(LogLevel::Trace)
        } else if eq_ignore_case(s, "debug") {
            Some(LogLevel::Debug)
        } else if eq_ignore_case(s, "warn") || eq_ignore_case(s, "warning") {
            Some(LogLevel::Warn)
        } else if eq_ignore_case(s, "err") || eq_ignore_case(s, "error") {
            Some(LogLevel::Error)
        } else {
            None
        }
    }

    /// Parse a log-level name, case-insensitively; an absent name means
    /// the default level. Names outside the known set are excluded by
    /// contract: the process refuses to start on them, so callers with
    /// untrusted input test with [`ConfigFile::try_parse_log_level`]
    /// first.
    pub fn parse_log_level(log_level: Option<&str>) -> (r: LogLevel)
        requires
            log_level matches Some(s) ==> known_level(s@),
        ensures
            match log_level {
                Some(s) => Some(r) == level_for(s@),
                None => r == LogLevel::Info,
            },
    {
        match Self::try_parse_log_level(log_level) {
            Some(level) => level,
            None => unreached(),
        }
    }

    /// Build the runtime configuration: the listen address is the
    /// unspecified address of the chosen family with the configured or
    /// default port, and an empty blacklist file name means no blacklist.
    pub fn into_config(self) -> (r: Config)
        requires
            self.app.log_level matches Some(s) ==> known_level(s@),
        ensures
            r.address.use_ipv6 == self.network.use_ipv6,
            r.address.port == (match self.network.port {
                Some(p) => p,
                None => DEFAULT_PORT,
            }),
            match self.app.log_level {
                Some(s) => Some(r.log_level) == level_for(s@),
                None => r.log_level == LogLevel::Info,
            },
            r.database_url@ == self.data.database_url@,
            r.revisions_dir@ == self.data.revisions_dir@,
            self.security.password_blacklist_file@.len() == 0 ==> r.password_blacklist is None,
            self.security.password_blacklist_file@.len() != 0 ==> (r.password_blacklist matches Some(
                p,
            ) && p@ == self.security.password_blacklist_file@),
    {
        let ConfigFile { app, network, data, security } = self;
        let Network { use_ipv6, port } = network;
        let Data { database_url, revisions_dir } = data;
        let Security { password_blacklist_file } = security;

        let log_level = match &app.log_level {
            Some(s) => Self::parse_log_level(Some(s.as_str())),
            None => Self::parse_log_level(None),
        };

        let password_blacklist = if password_blacklist_file.as_str().is_empty() {
            None
        } else {
            Some(password_blacklist_file)
        };

        let address = ListenAddress {
            use_ipv6,
            port: match port {
                Some(p) => p,
                None => DEFAULT_PORT,
            },
        };

        Config { address, log_level, database_url, revisions_dir, password_blacklist }
    }
}

} // verus!
