//! Tests of configuration handling: log-level parsing and the
//! file-to-runtime conversion rules.

use deepwell_rpc::config::{
    App, Config, ConfigFile, Data, LogLevel, Network, Security, DEFAULT_PORT,
};

fn file(log_level: Option<&str>, use_ipv6: bool, port: Option<u16>, blacklist: &str) -> ConfigFile {
    ConfigFile {
        app: App { log_level: log_level.map(|s| s.to_string()) },
        network: Network { use_ipv6, port },
        data: Data {
            database_url: "postgres://localhost/deepwell".to_string(),
            revisions_dir: "/var/lib/deepwell/revisions".to_string(),
        },
        security: Security { password_blacklist_file: blacklist.to_string() },
    }
}

#[test]
fn log_level_names_parse_case_insensitively() {
    let cases = [
        ("off", LogLevel::Off),
        ("none", LogLevel::Off),
        ("trace", LogLevel::Trace),
        ("debug", LogLevel::Debug),
        ("warn", LogLevel::Warn),
        ("warning", LogLevel::Warn),
        ("err", LogLevel::Error),
        ("error", LogLevel::Error),
        ("", LogLevel::Info),
        ("WARN", LogLevel::Warn),
        ("Error", LogLevel::Error),
        ("TrAcE", LogLevel::Trace),
        ("NONE", LogLevel::Off),
    ];
    for (name, expected) in cases {
        assert_eq!(ConfigFile::parse_log_level(Some(name)), expected, "level {:?}", name);
        assert_eq!(
            ConfigFile::try_parse_log_level(Some(name)),
            Some(expected),
            "level {:?}",
            name
        );
    }
}

#[test]
fn absent_log_level_means_the_default() {
    assert_eq!(ConfigFile::parse_log_level(None), LogLevel::Info);
    assert_eq!(ConfigFile::try_parse_log_level(None), Some(LogLevel::Info));
}

#[test]
fn unknown_log_level_is_refused() {
    assert_eq!(ConfigFile::try_parse_log_level(Some("verbose")), None);
    assert_eq!(ConfigFile::try_parse_log_level(Some("info")), None);
}

#[test]
fn into_config_defaults_the_port_and_keeps_the_family() {
    let config: Config = file(Some("debug"), false, None, "").into_config();
    assert!(!config.address.use_ipv6);
    assert_eq!(config.address.port, DEFAULT_PORT);
    assert_eq!(config.address.port, 2747);
    assert_eq!(config.log_level, LogLevel::Debug);
    assert_eq!(config.database_url, "postgres://localhost/deepwell");
    assert_eq!(config.revisions_dir, "/var/lib/deepwell/revisions");
    assert!(config.password_blacklist.is_none());

    let config: Config = file(None, true, Some(4096), "blacklist.txt").into_config();
    assert!(config.address.use_ipv6);
    assert_eq!(config.address.port, 4096);
    assert_eq!(config.log_level, LogLevel::Info);
    assert_eq!(config.password_blacklist.as_deref(), Some("blacklist.txt"));
}
