use rsh::config::Config;
use rsh::config::Error;
use rsh::config::api_key_path;
use rsh::config::build_config;
use rsh::config::parse_u16;
use rsh::config::system_config_path;
use rsh::config::user_config_dir;
use rsh::config::user_config_path;
use rsh::log::Logger;
use rsh::log::decrease_level;
use rsh::log::increase_level;
use rsh::log::level;
use rsh::log::log;
use rsh::log::set_level;
use rsh::options::LogLevel;
use rsh::options::Protocol;
use rsh::options::RequestTTY;

fn pairs(kv: &[(&str, &str)]) -> Vec<(String, String)> {
    kv.iter().map(|(k, v)| (k.to_string(), v.to_string())).collect()
}

#[test]
fn options_before_any_host_apply_everywhere() {
    let cfg = build_config(pairs(&[("User", "alice"), ("Port", "8080")])).unwrap();
    assert_eq!(cfg.user("any.host"), Some("alice".to_string()));
    assert_eq!(cfg.port("other"), Some(8080));
}

#[test]
fn sections_select_by_host_pattern() {
    let cfg = build_config(pairs(&[
        ("Host", "web*"),
        ("HostName", "rancher.example.com"),
        ("Protocol", "http"),
        ("Host", "db*"),
        ("HostName", "db.example.com"),
    ]))
    .unwrap();
    assert_eq!(cfg.host_name("web1"), Some("rancher.example.com".to_string()));
    assert_eq!(cfg.protocol("web1"), Some(Protocol::Http));
    assert_eq!(cfg.host_name("db9"), Some("db.example.com".to_string()));
    assert_eq!(cfg.protocol("db9"), None);
    assert_eq!(cfg.host_name("mail"), None);
}

#[test]
fn earlier_sections_win() {
    let first = build_config(pairs(&[("Host", "web*"), ("User", "alice")])).unwrap();
    let second = build_config(pairs(&[("Host", "*"), ("User", "bob")])).unwrap();
    let cfg = first.append(second);
    assert_eq!(cfg.user("web1"), Some("alice".to_string()));
    assert_eq!(cfg.user("db1"), Some("bob".to_string()));
}

#[test]
fn every_option_kind_parses() {
    let cfg = build_config(pairs(&[
        ("environment", "Default"),
        ("escapechar", "^"),
        ("hostname", "h.example.com"),
        ("loglevel", "debug2"),
        ("port", "18080"),
        ("protocol", "https"),
        ("remotecommand", "bash"),
        ("requesttty", "false"),
        ("service", "web"),
        ("stack", "app"),
        ("user", "root"),
    ]))
    .unwrap();
    assert_eq!(cfg.environment("h"), Some("Default".to_string()));
    assert_eq!(cfg.escape_char("h"), Some('^'));
    assert_eq!(cfg.host_name("h"), Some("h.example.com".to_string()));
    assert_eq!(cfg.log_level("h"), Some(LogLevel::Debug2));
    assert_eq!(cfg.port("h"), Some(18080));
    assert_eq!(cfg.protocol("h"), Some(Protocol::Https));
    assert_eq!(cfg.remote_command("h"), Some("bash".to_string()));
    assert_eq!(cfg.request_tty("h"), Some(RequestTTY::No));
    assert_eq!(cfg.service("h"), Some("web".to_string()));
    assert_eq!(cfg.stack("h"), Some("app".to_string()));
    assert_eq!(cfg.user("h"), Some("root".to_string()));
}

#[test]
fn bad_values_name_the_option() {
    match build_config(pairs(&[("Port", "70000")])) {
        Err(Error::OptionError(k, v)) => {
            assert_eq!(k, "Port");
            assert_eq!(v, "70000");
        }
        _ => panic!("an oversized port must be refused"),
    }
    assert!(matches!(
        build_config(pairs(&[("escapechar", "ab")])),
        Err(Error::OptionError(_, _))
    ));
    assert!(matches!(
        build_config(pairs(&[("loglevel", "loud")])),
        Err(Error::OptionError(_, _))
    ));
    assert!(matches!(
        build_config(pairs(&[("Host", "")])),
        Err(Error::OptionError(_, _))
    ));
}

#[test]
fn unknown_options_are_refused() {
    match build_config(pairs(&[("Compression", "yes")])) {
        Err(Error::UnknownOption(k)) => assert_eq!(k, "Compression"),
        _ => panic!("an unknown option must be refused"),
    }
}

#[test]
fn empty_config_sets_nothing() {
    let cfg: Config = Default::default();
    assert_eq!(cfg.user("h"), None);
    assert_eq!(cfg.port("h"), None);
}

#[test]
fn ports_parse_within_range() {
    assert_eq!(parse_u16("0"), Some(0));
    assert_eq!(parse_u16("80"), Some(80));
    assert_eq!(parse_u16("65535"), Some(65535));
    assert_eq!(parse_u16("65536"), None);
    assert_eq!(parse_u16(""), None);
    assert_eq!(parse_u16("8x0"), None);
    assert_eq!(parse_u16("123456789123"), None);
}

#[test]
fn well_known_paths() {
    assert_eq!(user_config_dir("/home/u"), "/home/u/.rsh");
    assert_eq!(user_config_path("/home/u"), "/home/u/.rsh/config");
    assert_eq!(system_config_path(), "/etc/rsh/rsh_config");
    assert_eq!(api_key_path("/home/u", "h.example.com"), "/home/u/.rsh/h.example.com");
}

#[test]
fn logging_filters_by_level() {
    let mut logger = Logger::new();
    assert_eq!(level(&logger), LogLevel::Info);
    assert_eq!(log(&logger, LogLevel::Error, "boom"), Some("boom".to_string()));
    assert_eq!(log(&logger, LogLevel::Debug, "hidden"), None);
    set_level(&mut logger, LogLevel::Debug3);
    assert_eq!(
        log(&logger, LogLevel::Debug, "m"),
        Some("debug1: m".to_string())
    );
    assert_eq!(
        log(&logger, LogLevel::Debug2, "m"),
        Some("debug2: m".to_string())
    );
    assert_eq!(
        log(&logger, LogLevel::Debug3, "m"),
        Some("debug3: m".to_string())
    );
}

#[test]
fn level_adjustment_saturates() {
    let mut logger = Logger::new();
    set_level(&mut logger, LogLevel::Debug2);
    assert_eq!(increase_level(&mut logger), LogLevel::Debug3);
    assert_eq!(increase_level(&mut logger), LogLevel::Debug3);
    set_level(&mut logger, LogLevel::Fatal);
    assert_eq!(decrease_level(&mut logger), LogLevel::Quiet);
    assert_eq!(decrease_level(&mut logger), LogLevel::Quiet);
}
