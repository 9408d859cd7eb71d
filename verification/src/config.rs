//! The layered client configuration: sections selected by host patterns,
//! searched first-match-first, and built from key-value pairs.

use vstd::prelude::*;
use crate::options::LogLevel;
use crate::options::Protocol;
use crate::options::RequestTTY;
use crate::options::parse_log_level;
use crate::options::parse_protocol;
use crate::options::parse_request_tty;
use crate::pattern::PatternList;
use crate::pattern::Token;
use crate::pattern::entry_view;
use crate::pattern::list_match;
use crate::pattern::parse_list;
use crate::text::chars_of;
use crate::text::lower_of;
use crate::text::str_eq;
use crate::text::to_lowercase;
use crate::text::upper_of;

verus! {

/// Why a configuration could not be read.
#[derive(Debug)]
pub enum Error {
    /// A value that its option could not parse: the option, then the value.
    OptionError(String, String),
    /// An option name the configuration does not know.
    UnknownOption(String),
}

/// The failure as the specification sees it.
pub enum ConfigFailure {
    OptionError(Seq<char>, Seq<char>),
    UnknownOption(Seq<char>),
}

/// One configuration section: the hosts it applies to, and the options it
/// sets.
#[derive(Debug)]
pub struct Section {
    pub pattern: PatternList,
    pub environment: Option<String>,
    pub escape_char: Option<char>,
    pub host_name: Option<String>,
    pub log_level: Option<LogLevel>,
    pub port: Option<u16>,
    pub protocol: Option<Protocol>,
    pub remote_command: Option<String>,
    pub request_tty: Option<RequestTTY>,
    pub service: Option<String>,
    pub stack: Option<String>,
    pub user: Option<String>,
}

/// A section as the specification sees it.
#[verifier::ext_equal]
pub struct SectionView {
    pub pattern: Seq<(bool, Seq<Token>)>,
    pub environment: Option<Seq<char>>,
    pub escape_char: Option<char>,
    pub host_name: Option<Seq<char>>,
    pub log_level: Option<LogLevel>,
    pub port: Option<u16>,
    pub protocol: Option<Protocol>,
    pub remote_command: Option<Seq<char>>,
    pub request_tty: Option<RequestTTY>,
    pub service: Option<Seq<char>>,
    pub stack: Option<Seq<char>>,
    pub user: Option<Seq<char>>,
}

/// The view of an optional string field.
pub open spec fn opt_view(o: Option<String>) -> Option<Seq<char>> {
    match o {
        Option::Some(s) => Option::Some(s@),
        Option::None => Option::None,
    }
}

impl View for Section {
    type V = SectionView;

    open spec fn view(&self) -> SectionView {
        SectionView {
            pattern: self.pattern@.map_values(|e: crate::pattern::PatternListEntry| entry_view(e)),
            environment: opt_view(self.environment),
            escape_char: self.escape_char,
            host_name: opt_view(self.host_name),
            log_level: self.log_level,
            port: self.port,
            protocol: self.protocol,
            remote_command: opt_view(self.remote_command),
            request_tty: self.request_tty,
            service: opt_view(self.service),
            stack: opt_view(self.stack),
            user: opt_view(self.user),
        }
    }
}

impl Section {
    /// A section for these hosts, setting nothing yet.
    pub fn new(pattern: PatternList) -> (r: Section)
        ensures
            r.pattern@ == pattern@,
            r.environment is None,
            r.escape_char is None,
            r.host_name is None,
            r.log_level is None,
            r.port is None,
            r.protocol is None,
            r.remote_command is None,
            r.request_tty is None,
            r.service is None,
            r.stack is None,
            r.user is None,
    {
        Section {
            pattern,
            environment: Option::None,
            escape_char: Option::None,
            host_name: Option::None,
            log_level: Option::None,
            port: Option::None,
            protocol: Option::None,
            remote_command: Option::None,
            request_tty: Option::None,
            service: Option::None,
            stack: Option::None,
            user: Option::None,
        }
    }
}

/// The ordered sections a configuration holds; earlier sections win.
#[derive(Debug)]
pub struct Config {
    pub sections: Vec<Section>,
}

impl Default for Config {
    /// An empty configuration.
    fn default() -> (r: Config)
        ensures
            r.sections@ == Seq::<Section>::empty(),
    {
        Config { sections: Vec::new() }
    }
}

/// The string fields a section can set.
#[derive(Clone, Copy, PartialEq, Eq, Structural, Debug)]
pub enum StringKey {
    Environment,
    HostName,
    RemoteCommand,
    Service,
    Stack,
    User,
}

/// The named string field of a section.
pub open spec fn string_field(s: Section, k: StringKey) -> Option<String> {
    match k {
        StringKey::Environment => s.environment,
        StringKey::HostName => s.host_name,
        StringKey::RemoteCommand => s.remote_command,
        StringKey::Service => s.service,
        StringKey::Stack => s.stack,
        StringKey::User => s.user,
    }
}

/// The first value for the field among the sections whose pattern includes
/// the host.
pub open spec fn search_string(sections: Seq<Section>, host: Seq<char>, k: StringKey) -> Option<
    String,
>
    decreases sections.len(),
{
    if sections.len() == 0 {
        Option::None
    } else if list_match(sections[0].pattern@, host) && string_field(sections[0], k) is Some {
        string_field(sections[0], k)
    } else {
        search_string(sections.drop_first(), host, k)
    }
}

impl Config {
    /// This configuration followed by another: lookups try these sections
    /// first.
    pub fn append(self, other: Config) -> (r: Config)
        ensures
            r.sections@ == self.sections@ + other.sections@,
    {
        let mut sections = self.sections;
        let mut o = other;
        sections.append(&mut o.sections);
        Config { sections }
    }

    /// The first setting of the field for this host, exactly as
    /// `search_string` describes.
    pub fn string_option(&self, host: &str, key: StringKey) -> (r: Option<String>)
        ensures
            match r {
                Option::Some(v) => search_string(self.sections@, host@, key) matches Some(w) && w@
                    == v@,
                Option::None => search_string(self.sections@, host@, key) is None,
            },
    {
        let mut i: usize = 0;
        proof {
            assert(self.sections@.skip(0) =~= self.sections@);
        }
        while i < self.sections.len()
            invariant
                i <= self.sections@.len(),
                search_string(self.sections@, host@, key) == search_string(
                    self.sections@.skip(i as int),
                    host@,
                    key,
                ),
            decreases self.sections@.len() - i,
        {
            proof {
                assert(self.sections@.skip(i as int)[0] == self.sections@[i as int]);
                assert(self.sections@.skip(i as int).drop_first() =~= self.sections@.skip(
                    i as int + 1,
                ));
            }
            if self.sections[i].pattern.matches(host) {
                let field = match key {
                    StringKey::Environment => &self.sections[i].environment,
                    StringKey::HostName => &self.sections[i].host_name,
                    StringKey::RemoteCommand => &self.sections[i].remote_command,
                    StringKey::Service => &self.sections[i].service,
                    StringKey::Stack => &self.sections[i].stack,
                    StringKey::User => &self.sections[i].user,
                };
                match field {
                    Option::Some(v) => {
                        return Option::Some(v.clone());
                    },
                    Option::None => {},
                }
            }
            i = i + 1;
        }
        Option::None
    }

    /// The first environment set for this host.
    pub fn environment(&self, host: &str) -> (r: Option<String>)
        ensures
            match r {
                Option::Some(v) => search_string(self.sections@, host@, StringKey::Environment)
                    matches Some(w) && w@ == v@,
                Option::None => search_string(self.sections@, host@, StringKey::Environment)
                    is None,
            },
    {
        self.string_option(host, StringKey::Environment)
    }

    /// The first host name set for this host.
    pub fn host_name(&self, host: &str) -> (r: Option<String>)
        ensures
            match r {
                Option::Some(v) => search_string(self.sections@, host@, StringKey::HostName)
                    matches Some(w) && w@ == v@,
                Option::None => search_string(self.sections@, host@, StringKey::HostName) is None,
            },
    {
        self.string_option(host, StringKey::HostName)
    }

    /// The first remote command set for this host.
    pub fn remote_command(&self, host: &str) -> (r: Option<String>)
        ensures
            match r {
                Option::Some(v) => search_string(self.sections@, host@, StringKey::RemoteCommand)
                    matches Some(w) && w@ == v@,
                Option::None => search_string(self.sections@, host@, StringKey::RemoteCommand)
                    is None,
            },
    {
        self.string_option(host, StringKey::RemoteCommand)
    }

    /// The first service set for this host.
    pub fn service(&self, host: &str) -> (r: Option<String>)
        ensures
            match r {
                Option::Some(v) => search_string(self.sections@, host@, StringKey::Service)
                    matches Some(w) && w@ == v@,
                Option::None => search_string(self.sections@, host@, StringKey::Service) is None,
            },
    {
        self.string_option(host, StringKey::Service)
    }

    /// The first stack set for this host.
    pub fn stack(&self, host: &str) -> (r: Option<String>)
        ensures
            match r {
                Option::Some(v) => search_string(self.sections@, host@, StringKey::Stack)
                    matches Some(w) && w@ == v@,
                Option::None => search_string(self.sections@, host@, StringKey::Stack) is None,
            },
    {
        self.string_option(host, StringKey::Stack)
    }

    /// The first user set for this host.
    pub fn user(&self, host: &str) -> (r: Option<String>)
        ensures
            match r {
                Option::Some(v) => search_string(self.sections@, host@, StringKey::User)
                    matches Some(w) && w@ == v@,
                Option::None => search_string(self.sections@, host@, StringKey::User) is None,
            },
    {
        self.string_option(host, StringKey::User)
    }

    /// The first escape character set for this host, exactly as
    /// `search_escape_char` describes.
    pub fn escape_char(&self, host: &str) -> (r: Option<char>)
        ensures
            r == search_escape_char(self.sections@, host@),
    {
        let mut i: usize = 0;
        proof {
            assert(self.sections@.skip(0) =~= self.sections@);
        }
        while i < self.sections.len()
            invariant
                i <= self.sections@.len(),
                search_escape_char(self.sections@, host@) == search_escape_char(
                    self.sections@.skip(i as int),
                    host@,
                ),
            decreases self.sections@.len() - i,
        {
            proof {
                assert(self.sections@.skip(i as int)[0] == self.sections@[i as int]);
                assert(self.sections@.skip(i as int).drop_first() =~= self.sections@.skip(
                    i as int + 1,
                ));
            }
            if self.sections[i].pattern.matches(host) {
                match self.sections[i].escape_char {
                    Option::Some(c) => {
                        return Option::Some(c);
                    },
                    Option::None => {},
                }
            }
            i = i + 1;
        }
        Option::None
    }

    /// The first log level set for this host, exactly as `search_log_level`
    /// describes.
    pub fn log_level(&self, host: &str) -> (r: Option<LogLevel>)
        ensures
            r == search_log_level(self.sections@, host@),
    {
        let mut i: usize = 0;
        proof {
            assert(self.sections@.skip(0) =~= self.sections@);
        }
        while i < self.sections.len()
            invariant
                i <= self.sections@.len(),
                search_log_level(self.sections@, host@) == search_log_level(
                    self.sections@.skip(i as int),
                    host@,
                ),
            decreases self.sections@.len() - i,
        {
            proof {
                assert(self.sections@.skip(i as int)[0] == self.sections@[i as int]);
                assert(self.sections@.skip(i as int).drop_first() =~= self.sections@.skip(
                    i as int + 1,
                ));
            }
            if self.sections[i].pattern.matches(host) {
                match self.sections[i].log_level {
                    Option::Some(l) => {
                        return Option::Some(l);
                    },
                    Option::None => {},
                }
            }
            i = i + 1;
        }
        Option::None
    }

    /// The first port set for this host, exactly as `search_port`
    /// describes.
    pub fn port(&self, host: &str) -> (r: Option<u16>)
        ensures
            r == search_port(self.sections@, host@),
    {
        let mut i: usize = 0;
        proof {
            assert(self.sections@.skip(0) =~= self.sections@);
        }
        while i < self.sections.len()
            invariant
                i <= self.sections@.len(),
                search_port(self.sections@, host@) == search_port(
                    self.sections@.skip(i as int),
                    host@,
                ),
            decreases self.sections@.len() - i,
        {
            proof {
                assert(self.sections@.skip(i as int)[0] == self.sections@[i as int]);
                assert(self.sections@.skip(i as int).drop_first() =~= self.sections@.skip(
                    i as int + 1,
                ));
            }
            if self.sections[i].pattern.matches(host) {
                match self.sections[i].port {
                    Option::Some(p) => {
                        return Option::Some(p);
                    },
                    Option::None => {},
                }
            }
            i = i + 1;
        }
        Option::None
    }

    /// The first protocol set for this host, exactly as `search_protocol`
    /// describes.
    pub fn protocol(&self, host: &str) -> (r: Option<Protocol>)
        ensures
            r == search_protocol(self.sections@, host@),
    {
        let mut i: usize = 0;
        proof {
            assert(self.sections@.skip(0) =~= self.sections@);
        }
        while i < self.sections.len()
            invariant
                i <= self.sections@.len(),
                search_protocol(self.sections@, host@) == search_protocol(
                    self.sections@.skip(i as int),
                    host@,
                ),
            decreases self.sections@.len() - i,
        {
            proof {
                assert(self.sections@.skip(i as int)[0] == self.sections@[i as int]);
                assert(self.sections@.skip(i as int).drop_first() =~= self.sections@.skip(
                    i as int + 1,
                ));
            }
            if self.sections[i].pattern.matches(host) {
                match self.sections[i].protocol {
                    Option::Some(p) => {
                        return Option::Some(p);
                    },
                    Option::None => {},
                }
            }
            i = i + 1;
        }
        Option::None
    }

    /// The first terminal request set for this host, exactly as
    /// `search_request_tty` describes.
    pub fn request_tty(&self, host: &str) -> (r: Option<RequestTTY>)
        ensures
            r == search_request_tty(self.sections@, host@),
    {
        let mut i: usize = 0;
        proof {
            assert(self.sections@.skip(0) =~= self.sections@);
        }
        while i < self.sections.len()
            invariant
                i <= self.sections@.len(),
                search_request_tty(self.sections@, host@) == search_request_tty(
                    self.sections@.skip(i as int),
                    host@,
                ),
            decreases self.sections@.len() - i,
        {
            proof {
                assert(self.sections@.skip(i as int)[0] == self.sections@[i as int]);
                assert(self.sections@.skip(i as int).drop_first() =~= self.sections@.skip(
                    i as int + 1,
                ));
            }
            if self.sections[i].pattern.matches(host) {
                match self.sections[i].request_tty {
                    Option::Some(t) => {
                        return Option::Some(t);
                    },
                    Option::None => {},
                }
            }
            i = i + 1;
        }
        Option::None
    }
}

/// The first escape character among the matching sections.
pub open spec fn search_escape_char(sections: Seq<Section>, host: Seq<char>) -> Option<char>
    decreases sections.len(),
{
    if sections.len() == 0 {
        Option::None
    } else if list_match(sections[0].pattern@, host) && sections[0].escape_char is Some {
        sections[0].escape_char
    } else {
        search_escape_char(sections.drop_first(), host)
    }
}

/// The first log level among the matching sections.
pub open spec fn search_log_level(sections: Seq<Section>, host: Seq<char>) -> Option<LogLevel>
    decreases sections.len(),
{
    if sections.len() == 0 {
        Option::None
    } else if list_match(sections[0].pattern@, host) && sections[0].log_level is Some {
        sections[0].log_level
    } else {
        search_log_level(sections.drop_first(), host)
    }
}

/// The first port among the matching sections.
pub open spec fn search_port(sections: Seq<Section>, host: Seq<char>) -> Option<u16>
    decreases sections.len(),
{
    if sections.len() == 0 {
        Option::None
    } else if list_match(sections[0].pattern@, host) && sections[0].port is Some {
        sections[0].port
    } else {
        search_port(sections.drop_first(), host)
    }
}

/// The first protocol among the matching sections.
pub open spec fn search_protocol(sections: Seq<Section>, host: Seq<char>) -> Option<Protocol>
    decreases sections.len(),
{
    if sections.len() == 0 {
        Option::None
    } else if list_match(sections[0].pattern@, host) && sections[0].protocol is Some {
        sections[0].protocol
    } else {
        search_protocol(sections.drop_first(), host)
    }
}

/// The first terminal request among the matching sections.
pub open spec fn search_request_tty(sections: Seq<Section>, host: Seq<char>) -> Option<RequestTTY>
    decreases sections.len(),
{
    if sections.len() == 0 {
        Option::None
    } else if list_match(sections[0].pattern@, host) && sections[0].request_tty is Some {
        sections[0].request_tty
    } else {
        search_request_tty(sections.drop_first(), host)
    }
}

/// The per-user configuration directory under a home directory.
pub fn user_config_dir(home: &str) -> (r: String)
    ensures
        r@ == home@ + "/.rsh"@,
{
    crate::text::concat_str(home, "/.rsh")
}

/// The per-user configuration file under a home directory.
pub fn user_config_path(home: &str) -> (r: String)
    ensures
        r@ == home@ + "/.rsh"@ + "/config"@,
{
    let mut r = user_config_dir(home);
    r.append("/config");
    r
}

/// The system-wide configuration file.
pub fn system_config_path() -> (r: String)
    ensures
        r@ == "/etc/rsh/rsh_config"@,
{
    "/etc/rsh/rsh_config".to_owned()
}

/// The per-host credential file under a home directory.
pub fn api_key_path(home: &str, file: &str) -> (r: String)
    ensures
        r@ == home@ + "/.rsh"@ + "/"@ + file@,
{
    let mut r = user_config_dir(home);
    r.append("/");
    r.append(file);
    r
}

/// A decimal digit.
pub open spec fn is_digit(c: char) -> bool {
    '0' <= c && c <= '9'
}

/// A digit's value.
pub open spec fn digit_val(c: char) -> int {
    (c as u32) - 48
}

/// The number a digit string denotes, most significant digit first, or
/// nothing when any character is not a digit or the string is empty.
pub open spec fn dec_value(s: Seq<char>) -> Option<int>
    decreases s.len(),
{
    if s.len() == 0 {
        Option::None
    } else if !is_digit(s.last()) {
        Option::None
    } else if s.len() == 1 {
        Option::Some(digit_val(s.last()))
    } else {
        match dec_value(s.drop_last()) {
            Option::Some(v) => Option::Some(v * 10 + digit_val(s.last())),
            Option::None => Option::None,
        }
    }
}

/// The port a text names: its decimal value, when it has one that fits.
pub open spec fn parse_u16_spec(s: Seq<char>) -> Option<u16> {
    match dec_value(s) {
        Option::Some(v) => if v <= 65535 {
            Option::Some(v as u16)
        } else {
            Option::None
        },
        Option::None => Option::None,
    }
}

/// A number too large to be a port stays too large under more digits, and
/// a failed parse stays failed.
proof fn lemma_dec_extend(s: Seq<char>, i: int)
    requires
        1 <= i <= s.len(),
    ensures
        dec_value(s.subrange(0, i)) is None ==> dec_value(s) is None,
        (match dec_value(s.subrange(0, i)) {
            Option::Some(v) => v > 65535,
            Option::None => false,
        }) ==> parse_u16_spec(s) is None,
    decreases s.len() - i,
{
    if i == s.len() {
        assert(s.subrange(0, i) =~= s);
    } else {
        lemma_dec_extend(s, i + 1);
        let p = s.subrange(0, i);
        let q = s.subrange(0, i + 1);
        assert(q.drop_last() =~= p);
        assert(q.last() == s[i]);
        match dec_value(p) {
            Option::Some(v) => {
                if v > 65535 {
                    match dec_value(q) {
                        Option::Some(w) => {
                            assert(w == v * 10 + digit_val(s[i]));
                            assert(w > 65535);
                        },
                        Option::None => {},
                    }
                }
            },
            Option::None => {
                assert(dec_value(q) is None);
            },
        }
    }
}

/// The failure an error value stands for.
pub open spec fn failure_view(e: Error) -> ConfigFailure {
    match e {
        Error::OptionError(k, v) => ConfigFailure::OptionError(k@, v@),
        Error::UnknownOption(k) => ConfigFailure::UnknownOption(k@),
    }
}

/// A section that applies to every host and sets nothing.
pub open spec fn default_section_view() -> SectionView {
    SectionView {
        pattern: seq![(false, seq![Token::AnyRecurring])],
        environment: Option::None,
        escape_char: Option::None,
        host_name: Option::None,
        log_level: Option::None,
        port: Option::None,
        protocol: Option::None,
        remote_command: Option::None,
        request_tty: Option::None,
        service: Option::None,
        stack: Option::None,
        user: Option::None,
    }
}

/// A fresh section for these hosts.
pub open spec fn fresh_section_view(pattern: Seq<(bool, Seq<Token>)>) -> SectionView {
    SectionView { pattern, ..default_section_view() }
}

/// One option applied to the open section: the key is matched
/// case-insensitively, the value parsed as the option demands; a value the
/// option cannot read names the pair, and an unknown option its key.
pub open spec fn apply_option(
    cur: SectionView,
    key: Seq<char>,
    kl: Seq<char>,
    value: Seq<char>,
) -> Result<SectionView, ConfigFailure> {
    if kl == "environment"@ {
        Result::Ok(SectionView { environment: Option::Some(value), ..cur })
    } else if kl == "escapechar"@ {
        if value.len() == 1 {
            Result::Ok(SectionView { escape_char: Option::Some(value[0]), ..cur })
        } else {
            Result::Err(ConfigFailure::OptionError(key, value))
        }
    } else if kl == "hostname"@ {
        Result::Ok(SectionView { host_name: Option::Some(value), ..cur })
    } else if kl == "loglevel"@ {
        match parse_log_level(upper_of(value)) {
            Result::Ok(l) => Result::Ok(SectionView { log_level: Option::Some(l), ..cur }),
            Result::Err(_) => Result::Err(ConfigFailure::OptionError(key, value)),
        }
    } else if kl == "port"@ {
        match parse_u16_spec(value) {
            Option::Some(p) => Result::Ok(SectionView { port: Option::Some(p), ..cur }),
            Option::None => Result::Err(ConfigFailure::OptionError(key, value)),
        }
    } else if kl == "protocol"@ {
        match parse_protocol(lower_of(value)) {
            Result::Ok(p) => Result::Ok(SectionView { protocol: Option::Some(p), ..cur }),
            Result::Err(_) => Result::Err(ConfigFailure::OptionError(key, value)),
        }
    } else if kl == "remotecommand"@ {
        Result::Ok(SectionView { remote_command: Option::Some(value), ..cur })
    } else if kl == "requesttty"@ {
        match parse_request_tty(lower_of(value)) {
            Result::Ok(t) => Result::Ok(SectionView { request_tty: Option::Some(t), ..cur }),
            Result::Err(_) => Result::Err(ConfigFailure::OptionError(key, value)),
        }
    } else if kl == "service"@ {
        Result::Ok(SectionView { service: Option::Some(value), ..cur })
    } else if kl == "stack"@ {
        Result::Ok(SectionView { stack: Option::Some(value), ..cur })
    } else if kl == "user"@ {
        Result::Ok(SectionView { user: Option::Some(value), ..cur })
    } else {
        Result::Err(ConfigFailure::UnknownOption(key))
    }
}

/// Folding the pairs into sections from position `i`: a `host` pair closes
/// the open section and opens one for its patterns, every other pair sets
/// an option of the open section, and the end of the pairs closes it.
pub open spec fn build_from(
    pairs: Seq<(Seq<char>, Seq<char>)>,
    i: int,
    done: Seq<SectionView>,
    cur: SectionView,
) -> Result<Seq<SectionView>, ConfigFailure>
    decreases pairs.len() - i,
{
    if i < 0 || i >= pairs.len() {
        Result::Ok(done.push(cur))
    } else {
        let key = pairs[i].0;
        let value = pairs[i].1;
        let kl = lower_of(key);
        if kl == "host"@ {
            match parse_list(value, 0, Seq::empty(), Seq::empty()) {
                Result::Ok(es) => build_from(pairs, i + 1, done.push(cur), fresh_section_view(es)),
                Result::Err(_) => Result::Err(ConfigFailure::OptionError(key, value)),
            }
        } else {
            match apply_option(cur, key, kl, value) {
                Result::Ok(c2) => build_from(pairs, i + 1, done, c2),
                Result::Err(f) => Result::Err(f),
            }
        }
    }
}

/// Builds a configuration from key-value pairs, exactly as `build_from`
/// describes, starting from a section that applies to every host.
pub fn build_config(pairs: Vec<(String, String)>) -> (r: Result<Config, Error>)
    ensures
        ({
            let pv = pairs@.map_values(|p: (String, String)| (p.0@, p.1@));
            match build_from(pv, 0, Seq::empty(), default_section_view()) {
                Result::Ok(views) => r matches Ok(cfg) && cfg.sections@.map_values(
                    |s: Section| s@,
                ) == views,
                Result::Err(f) => r matches Err(e) && failure_view(e) == f,
            }
        }),
{
    let ghost pv = pairs@.map_values(|p: (String, String)| (p.0@, p.1@));
    let mut sections: Vec<Section> = Vec::new();
    let mut current = Section::new(PatternList::default());
    let mut i: usize = 0;
    proof {
        assert(sections@.map_values(|s: Section| s@) =~= Seq::<SectionView>::empty());
        assert(current@ =~~= default_section_view());
    }
    while i < pairs.len()
        invariant
            i <= pairs@.len(),
            pv == pairs@.map_values(|p: (String, String)| (p.0@, p.1@)),
            build_from(pv, 0, Seq::empty(), default_section_view()) == build_from(
                pv,
                i as int,
                sections@.map_values(|s: Section| s@),
                current@,
            ),
        decreases pairs@.len() - i,
    {
        let ghost done = sections@.map_values(|s: Section| s@);
        let ghost curv = current@;
        let key = &pairs[i].0;
        let value = &pairs[i].1;
        let kl = to_lowercase(key.as_str());
        if str_eq(kl.as_str(), "host") {
            match PatternList::from_str(value.as_str()) {
                Result::Ok(pl) => {
                    sections.push(current);
                    current = Section::new(pl);
                    proof {
                        assert(sections@.map_values(|s: Section| s@) =~~= done.push(curv));
                        assert(current@ =~~= fresh_section_view(
                            pl@.map_values(
                                |e: crate::pattern::PatternListEntry| entry_view(e),
                            ),
                        ));
                    }
                },
                Result::Err(_) => {
                    return Result::Err(Error::OptionError(key.clone(), value.clone()));
                },
            }
        } else if str_eq(kl.as_str(), "environment") {
            current.environment = Option::Some(value.clone());
        } else if str_eq(kl.as_str(), "escapechar") {
            if value.as_str().unicode_len() == 1 {
                current.escape_char = Option::Some(value.as_str().get_char(0));
            } else {
                return Result::Err(Error::OptionError(key.clone(), value.clone()));
            }
        } else if str_eq(kl.as_str(), "hostname") {
            current.host_name = Option::Some(value.clone());
        } else if str_eq(kl.as_str(), "loglevel") {
            match LogLevel::from_str(value.as_str()) {
                Result::Ok(l) => {
                    current.log_level = Option::Some(l);
                },
                Result::Err(_) => {
                    return Result::Err(Error::OptionError(key.clone(), value.clone()));
                },
            }
        } else if str_eq(kl.as_str(), "port") {
            match parse_u16(value.as_str()) {
                Option::Some(p) => {
                    current.port = Option::Some(p);
                },
                Option::None => {
                    return Result::Err(Error::OptionError(key.clone(), value.clone()));
                },
            }
        } else if str_eq(kl.as_str(), "protocol") {
            match Protocol::from_str(value.as_str()) {
                Result::Ok(p) => {
                    current.protocol = Option::Some(p);
                },
                Result::Err(_) => {
                    return Result::Err(Error::OptionError(key.clone(), value.clone()));
                },
            }
        } else if str_eq(kl.as_str(), "remotecommand") {
            current.remote_command = Option::Some(value.clone());
        } else if str_eq(kl.as_str(), "requesttty") {
            match RequestTTY::from_str(value.as_str()) {
                Result::Ok(t) => {
                    current.request_tty = Option::Some(t);
                },
                Result::Err(_) => {
                    return Result::Err(Error::OptionError(key.clone(), value.clone()));
                },
            }
        } else if str_eq(kl.as_str(), "service") {
            current.service = Option::Some(value.clone());
        } else if str_eq(kl.as_str(), "stack") {
            current.stack = Option::Some(value.clone());
        } else if str_eq(kl.as_str(), "user") {
            current.user = Option::Some(value.clone());
        } else {
            return Result::Err(Error::UnknownOption(key.clone()));
        }
        i = i + 1;
    }
    let ghost done = sections@.map_values(|s: Section| s@);
    let ghost curv = current@;
    sections.push(current);
    proof {
        assert(sections@.map_values(|s: Section| s@) =~~= done.push(curv));
    }
    Result::Ok(Config { sections })
}

/// Reads a port number, exactly as `parse_u16_spec` describes.
pub fn parse_u16(s: &str) -> (r: Option<u16>)
    ensures
        r == parse_u16_spec(s@),
{
    let cs = chars_of(s);
    if cs.len() == 0 {
        return Option::None;
    }
    let mut acc: u32 = 0;
    let mut i: usize = 0;
    while i < cs.len()
        invariant
            i <= cs@.len(),
            cs@ == s@,
            cs@.len() > 0,
            acc <= 65535,
            i > 0 ==> dec_value(s@.subrange(0, i as int)) == Option::Some(acc as int),
            i == 0 ==> acc == 0,
        decreases cs@.len() - i,
    {
        let c = cs[i];
        if !('0' <= c && c <= '9') {
            proof {
                assert(s@.subrange(0, i as int + 1).last() == s@[i as int]);
                assert(dec_value(s@.subrange(0, i as int + 1)) is None);
                lemma_dec_extend(s@, i as int + 1);
            }
            return Option::None;
        }
        let d: u32 = (c as u32) - 48;
        proof {
            let q = s@.subrange(0, i as int + 1);
            assert(q.drop_last() =~= s@.subrange(0, i as int));
            assert(q.last() == s@[i as int]);
        }
        acc = acc * 10 + d;
        if acc > 65535 {
            proof {
                lemma_dec_extend(s@, i as int + 1);
            }
            return Option::None;
        }
        i = i + 1;
    }
    proof {
        assert(s@.subrange(0, s@.len() as int) =~= s@);
    }
    Option::Some(acc as u16)
}

} // verus!
