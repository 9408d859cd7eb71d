use rsh::options::BuildError;
use rsh::options::Container;
use rsh::options::LogLevel;
use rsh::options::OptionsBuilder;
use rsh::options::Protocol;
use rsh::options::RequestTTY;
use rsh::token::expand;

#[test]
fn log_level_steps_saturate() {
    assert_eq!(LogLevel::Quiet.succ(), LogLevel::Fatal);
    assert_eq!(LogLevel::Info.succ(), LogLevel::Verbose);
    assert_eq!(LogLevel::Debug3.succ(), LogLevel::Debug3);
    assert_eq!(LogLevel::Quiet.pred(), LogLevel::Quiet);
    assert_eq!(LogLevel::Debug3.pred(), LogLevel::Debug2);
    assert_eq!(LogLevel::Info.pred(), LogLevel::Error);
}

#[test]
fn log_level_names_are_read_case_insensitively() {
    assert_eq!(LogLevel::from_str("quiet"), Ok(LogLevel::Quiet));
    assert_eq!(LogLevel::from_str("VERBOSE"), Ok(LogLevel::Verbose));
    assert_eq!(LogLevel::from_str("Debug1"), Ok(LogLevel::Debug));
    assert_eq!(LogLevel::from_str("debug3"), Ok(LogLevel::Debug3));
    assert!(LogLevel::from_str("loud").is_err());
}

#[test]
fn protocol_ports_and_names() {
    assert_eq!(Protocol::Http.default_port(), 80);
    assert_eq!(Protocol::Https.default_port(), 443);
    assert_eq!(Protocol::from_str("HTTP"), Ok(Protocol::Http));
    assert_eq!(Protocol::from_str("https"), Ok(Protocol::Https));
    assert!(Protocol::from_str("ftp").is_err());
    assert_eq!(Protocol::Http.name(), "http");
    let d: Protocol = Default::default();
    assert_eq!(d, Protocol::Https);
}

#[test]
fn request_tty_accepts_synonyms() {
    assert_eq!(RequestTTY::from_str("no"), Ok(RequestTTY::No));
    assert_eq!(RequestTTY::from_str("False"), Ok(RequestTTY::No));
    assert_eq!(RequestTTY::from_str("yes"), Ok(RequestTTY::Yes));
    assert_eq!(RequestTTY::from_str("TRUE"), Ok(RequestTTY::Yes));
    assert_eq!(RequestTTY::from_str("force"), Ok(RequestTTY::Force));
    assert_eq!(RequestTTY::from_str("auto"), Ok(RequestTTY::Auto));
    assert!(RequestTTY::from_str("maybe").is_err());
}

#[test]
fn container_policy_is_read_case_insensitively() {
    assert_eq!(Container::from_str("MENU"), Ok(Container::Menu));
    assert_eq!(Container::from_str("first"), Ok(Container::First));
    assert_eq!(Container::from_str("Auto"), Ok(Container::Auto));
    assert!(Container::from_str("second").is_err());
}

fn full_builder() -> OptionsBuilder {
    let mut b: OptionsBuilder = Default::default();
    b.environment("Default".to_string());
    b.host_name("%h".to_string());
    b.stack("app".to_string());
    b.service("web".to_string());
    b.token('h', "rancher.example.com".to_string());
    b
}

#[test]
fn build_expands_tokens_and_defaults() {
    let b = full_builder();
    let o = b.build(Some("alice".to_string())).unwrap();
    assert_eq!(o.host_name, "rancher.example.com");
    assert_eq!(o.environment, "Default");
    assert_eq!(o.user, "alice");
    assert_eq!(o.remote_command, "login -p -f alice");
    assert_eq!(o.port, 443);
    assert_eq!(o.url(), "https://rancher.example.com");
    assert_eq!(o.host_with_port(), "rancher.example.com");
}

#[test]
fn build_without_fallback_user_is_root() {
    let b = full_builder();
    let o = b.build(None).unwrap();
    assert_eq!(o.user, "root");
    assert_eq!(o.remote_command, "login -p -f root");
}

#[test]
fn explicit_user_wins_over_fallback() {
    let mut b = full_builder();
    b.user("bob".to_string());
    let o = b.build(Some("alice".to_string())).unwrap();
    assert_eq!(o.user, "bob");
}

#[test]
fn explicit_port_shows_in_urls() {
    let mut b = full_builder();
    b.port(8080);
    b.protocol(Protocol::Http);
    let o = b.build(None).unwrap();
    assert_eq!(o.url(), "http://rancher.example.com:8080");
    assert_eq!(o.host_with_port(), "rancher.example.com:8080");
}

#[test]
fn missing_fields_fail_in_order() {
    let b: OptionsBuilder = Default::default();
    assert!(matches!(b.build(None), Err(BuildError::MissingEnvironment)));

    let mut b: OptionsBuilder = Default::default();
    b.environment("e".to_string());
    assert!(matches!(b.build(None), Err(BuildError::MissingHostName)));

    let mut b: OptionsBuilder = Default::default();
    b.environment("e".to_string());
    b.host_name("h".to_string());
    assert!(matches!(b.build(None), Err(BuildError::MissingStack)));

    let mut b: OptionsBuilder = Default::default();
    b.environment("e".to_string());
    b.host_name("h".to_string());
    b.stack("s".to_string());
    assert!(matches!(b.build(None), Err(BuildError::MissingService)));
}

#[test]
fn unknown_token_names_the_character() {
    let mut b = full_builder();
    b.remote_command("echo %z".to_string());
    assert!(matches!(b.build(None), Err(BuildError::UnknownToken('z'))));
}

#[test]
fn unbound_allowed_token_stays_literal() {
    let mut b: OptionsBuilder = Default::default();
    b.environment("%e".to_string());
    b.host_name("h".to_string());
    b.stack("s".to_string());
    b.service("w".to_string());
    let o = b.build(None).unwrap();
    // `%e` is allowed in the environment but nothing is bound to it.
    assert_eq!(o.environment, "%e");
}

#[test]
fn expand_replaces_bound_tokens() {
    let map = vec![('h', "web".to_string())];
    assert_eq!(expand("%h.example", &map), Ok("web.example".to_string()));
    assert_eq!(expand("100%%", &map), Ok("100%".to_string()));
    assert_eq!(expand("plain", &map), Ok("plain".to_string()));
    assert_eq!(expand("a%zb", &map), Err('z'));
}
