//! Resolved session options and the builder that assembles them from the
//! command line, the configuration and the host argument.

use vstd::prelude::*;
use crate::pattern::Pattern;
use crate::pattern::Token;
use crate::text::concat_str;
use crate::text::dec_str;
use crate::text::lower_of;
use crate::text::push_char;
use crate::text::str_eq;
use crate::text::to_lowercase;
use crate::text::to_uppercase;
use crate::text::u16_to_string;
use crate::text::upper_of;
use crate::token::assoc;
use crate::token::lookup;
use crate::token::table_view;

verus! {

/// Why a set of options could not be built.
#[derive(Clone, Copy, PartialEq, Eq, Structural, Debug)]
pub enum BuildError {
    MissingEnvironment,
    MissingHostName,
    MissingService,
    MissingStack,
    UnknownToken(char),
}

/// A value that could not be read from its text.
#[derive(Clone, Copy, PartialEq, Eq, Structural, Debug)]
pub struct ParseError;

/// How a container is chosen when resolution yields several candidates.
#[derive(Clone, Copy, PartialEq, Eq, Structural, Debug)]
pub enum Container {
    /// Deterministically the first candidate.
    First,
    /// The sole candidate when there is exactly one; otherwise a menu, but
    /// only when the session is interactive.
    Auto,
    /// A numbered list read from an interactive prompt.
    Menu,
}

impl Default for Container {
    fn default() -> (r: Container)
        ensures
            r == Container::First,
    {
        Container::First
    }
}

/// The selection policy a text names, compared case-insensitively.
pub open spec fn parse_container(l: Seq<char>) -> Result<Container, ParseError> {
    if l == "first"@ {
        Result::Ok(Container::First)
    } else if l == "auto"@ {
        Result::Ok(Container::Auto)
    } else if l == "menu"@ {
        Result::Ok(Container::Menu)
    } else {
        Result::Err(ParseError)
    }
}

impl Container {
    /// Reads a selection policy, exactly as `parse_container` describes.
    pub fn from_str(s: &str) -> (r: Result<Container, ParseError>)
        ensures
            r == parse_container(lower_of(s@)),
    {
        let l = to_lowercase(s);
        if str_eq(l.as_str(), "first") {
            Result::Ok(Container::First)
        } else if str_eq(l.as_str(), "auto") {
            Result::Ok(Container::Auto)
        } else if str_eq(l.as_str(), "menu") {
            Result::Ok(Container::Menu)
        } else {
            Result::Err(ParseError)
        }
    }
}

/// How much the logger reports, quietest first.
#[derive(Clone, Copy, PartialEq, Eq, Structural, Debug)]
pub enum LogLevel {
    Quiet,
    Fatal,
    Error,
    Info,
    Verbose,
    Debug,
    Debug2,
    Debug3,
}

/// The position of a level in the order, quietest lowest.
pub open spec fn level_rank(l: LogLevel) -> int {
    match l {
        LogLevel::Quiet => 0,
        LogLevel::Fatal => 1,
        LogLevel::Error => 2,
        LogLevel::Info => 3,
        LogLevel::Verbose => 4,
        LogLevel::Debug => 5,
        LogLevel::Debug2 => 6,
        LogLevel::Debug3 => 7,
    }
}

impl LogLevel {
    /// The next level up; the loudest level is its own successor.
    pub fn succ(self) -> (r: LogLevel)
        ensures
            level_rank(r) == if level_rank(self) < 7 {
                level_rank(self) + 1
            } else {
                7int
            },
    {
        match self {
            LogLevel::Quiet => LogLevel::Fatal,
            LogLevel::Fatal => LogLevel::Error,
            LogLevel::Error => LogLevel::Info,
            LogLevel::Info => LogLevel::Verbose,
            LogLevel::Verbose => LogLevel::Debug,
            LogLevel::Debug => LogLevel::Debug2,
            LogLevel::Debug2 => LogLevel::Debug3,
            LogLevel::Debug3 => LogLevel::Debug3,
        }
    }

    /// The next level down; the quietest level is its own predecessor.
    pub fn pred(self) -> (r: LogLevel)
        ensures
            level_rank(r) == if level_rank(self) > 0 {
                level_rank(self) - 1
            } else {
                0int
            },
    {
        match self {
            LogLevel::Quiet => LogLevel::Quiet,
            LogLevel::Fatal => LogLevel::Quiet,
            LogLevel::Error => LogLevel::Fatal,
            LogLevel::Info => LogLevel::Error,
            LogLevel::Verbose => LogLevel::Info,
            LogLevel::Debug => LogLevel::Verbose,
            LogLevel::Debug2 => LogLevel::Debug,
            LogLevel::Debug3 => LogLevel::Debug2,
        }
    }

    /// Reads a level name, exactly as `parse_log_level` describes.
    pub fn from_str(s: &str) -> (r: Result<LogLevel, ParseError>)
        ensures
            r == parse_log_level(upper_of(s@)),
    {
        let u = to_uppercase(s);
        if str_eq(u.as_str(), "QUIET") {
            Result::Ok(LogLevel::Quiet)
        } else if str_eq(u.as_str(), "FATAL") {
            Result::Ok(LogLevel::Fatal)
        } else if str_eq(u.as_str(), "ERROR") {
            Result::Ok(LogLevel::Error)
        } else if str_eq(u.as_str(), "INFO") {
            Result::Ok(LogLevel::Info)
        } else if str_eq(u.as_str(), "VERBOSE") {
            Result::Ok(LogLevel::Verbose)
        } else if str_eq(u.as_str(), "DEBUG") {
            Result::Ok(LogLevel::Debug)
        } else if str_eq(u.as_str(), "DEBUG1") {
            Result::Ok(LogLevel::Debug)
        } else if str_eq(u.as_str(), "DEBUG2") {
            Result::Ok(LogLevel::Debug2)
        } else if str_eq(u.as_str(), "DEBUG3") {
            Result::Ok(LogLevel::Debug3)
        } else {
            Result::Err(ParseError)
        }
    }
}

impl Default for LogLevel {
    fn default() -> (r: LogLevel)
        ensures
            r == LogLevel::Info,
    {
        LogLevel::Info
    }
}

/// The level a text names, compared case-insensitively; `DEBUG1` is another
/// name for `DEBUG`.
pub open spec fn parse_log_level(u: Seq<char>) -> Result<LogLevel, ParseError> {
    if u == "QUIET"@ {
        Result::Ok(LogLevel::Quiet)
    } else if u == "FATAL"@ {
        Result::Ok(LogLevel::Fatal)
    } else if u == "ERROR"@ {
        Result::Ok(LogLevel::Error)
    } else if u == "INFO"@ {
        Result::Ok(LogLevel::Info)
    } else if u == "VERBOSE"@ {
        Result::Ok(LogLevel::Verbose)
    } else if u == "DEBUG"@ {
        Result::Ok(LogLevel::Debug)
    } else if u == "DEBUG1"@ {
        Result::Ok(LogLevel::Debug)
    } else if u == "DEBUG2"@ {
        Result::Ok(LogLevel::Debug2)
    } else if u == "DEBUG3"@ {
        Result::Ok(LogLevel::Debug3)
    } else {
        Result::Err(ParseError)
    }
}

/// The scheme the platform is reached over.
#[derive(Clone, Copy, PartialEq, Eq, Structural, Debug)]
pub enum Protocol {
    Http,
    Https,
}

/// The default port of each scheme.
pub open spec fn default_port_spec(p: Protocol) -> u16 {
    match p {
        Protocol::Http => 80,
        Protocol::Https => 443,
    }
}

/// The scheme's name as it stands in a URL.
pub open spec fn scheme_str(p: Protocol) -> Seq<char> {
    match p {
        Protocol::Http => "http"@,
        Protocol::Https => "https"@,
    }
}

impl Protocol {
    /// The port used when none is given: the scheme's well-known port.
    pub fn default_port(&self) -> (r: u16)
        ensures
            r == default_port_spec(*self),
    {
        match self {
            Protocol::Http => 80,
            Protocol::Https => 443,
        }
    }

    /// Reads a scheme name, exactly as `parse_protocol` describes.
    pub fn from_str(s: &str) -> (r: Result<Protocol, ParseError>)
        ensures
            r == parse_protocol(lower_of(s@)),
    {
        let l = to_lowercase(s);
        if str_eq(l.as_str(), "http") {
            Result::Ok(Protocol::Http)
        } else if str_eq(l.as_str(), "https") {
            Result::Ok(Protocol::Https)
        } else {
            Result::Err(ParseError)
        }
    }

    /// The scheme's name.
    pub fn name(&self) -> (r: &'static str)
        ensures
            r@ == scheme_str(*self),
    {
        match self {
            Protocol::Http => "http",
            Protocol::Https => "https",
        }
    }
}

impl Default for Protocol {
    fn default() -> (r: Protocol)
        ensures
            r == Protocol::Https,
    {
        Protocol::Https
    }
}

/// The scheme a text names, compared case-insensitively.
pub open spec fn parse_protocol(l: Seq<char>) -> Result<Protocol, ParseError> {
    if l == "http"@ {
        Result::Ok(Protocol::Http)
    } else if l == "https"@ {
        Result::Ok(Protocol::Https)
    } else {
        Result::Err(ParseError)
    }
}

/// Whether the session asks the remote side for a terminal.
#[derive(Clone, Copy, PartialEq, Eq, Structural, Debug)]
pub enum RequestTTY {
    /// A terminal when the session is an interactive login on a terminal.
    Auto,
    /// Always, even with a remote command.
    Force,
    /// Never.
    No,
    /// When local standard output is a terminal.
    Yes,
}

impl Default for RequestTTY {
    fn default() -> (r: RequestTTY)
        ensures
            r == RequestTTY::Auto,
    {
        RequestTTY::Auto
    }
}

/// The terminal request a text names, compared case-insensitively.
pub open spec fn parse_request_tty(l: Seq<char>) -> Result<RequestTTY, ParseError> {
    if l == "auto"@ {
        Result::Ok(RequestTTY::Auto)
    } else if l == "force"@ {
        Result::Ok(RequestTTY::Force)
    } else if l == "no"@ || l == "false"@ {
        Result::Ok(RequestTTY::No)
    } else if l == "yes"@ || l == "true"@ {
        Result::Ok(RequestTTY::Yes)
    } else {
        Result::Err(ParseError)
    }
}

impl RequestTTY {
    /// Reads a terminal request, exactly as `parse_request_tty` describes.
    pub fn from_str(s: &str) -> (r: Result<RequestTTY, ParseError>)
        ensures
            r == parse_request_tty(lower_of(s@)),
    {
        let l = to_lowercase(s);
        if str_eq(l.as_str(), "auto") {
            Result::Ok(RequestTTY::Auto)
        } else if str_eq(l.as_str(), "force") {
            Result::Ok(RequestTTY::Force)
        } else if str_eq(l.as_str(), "no") || str_eq(l.as_str(), "false") {
            Result::Ok(RequestTTY::No)
        } else if str_eq(l.as_str(), "yes") || str_eq(l.as_str(), "true") {
            Result::Ok(RequestTTY::Yes)
        } else {
            Result::Err(ParseError)
        }
    }
}

/// Expansion of `s[i..]` where only the `allowed` tokens may follow a
/// percent sign: `%%` yields `%`, an allowed token its bound value — or
/// itself, literally, when unbound — and any other token is the error.
pub open spec fn expand_allowed_from(
    s: Seq<char>,
    allowed: Seq<char>,
    m: Seq<(char, Seq<char>)>,
    i: int,
    replace: bool,
) -> Result<Seq<char>, char>
    decreases s.len() - i,
{
    if i < 0 || i >= s.len() {
        Result::Ok(Seq::empty())
    } else {
        let c = s[i];
        if replace && c == '%' {
            match expand_allowed_from(s, allowed, m, i + 1, false) {
                Result::Ok(rest) => Result::Ok(seq!['%'] + rest),
                Result::Err(e) => Result::Err(e),
            }
        } else if replace && allowed.contains(c) {
            match expand_allowed_from(s, allowed, m, i + 1, false) {
                Result::Ok(rest) => match assoc(m, c) {
                    Option::Some(v) => Result::Ok(v + rest),
                    Option::None => Result::Ok(seq!['%', c] + rest),
                },
                Result::Err(e) => Result::Err(e),
            }
        } else if replace {
            Result::Err(c)
        } else if c == '%' {
            expand_allowed_from(s, allowed, m, i + 1, true)
        } else {
            match expand_allowed_from(s, allowed, m, i + 1, false) {
                Result::Ok(rest) => Result::Ok(seq![c] + rest),
                Result::Err(e) => Result::Err(e),
            }
        }
    }
}

/// The whole expansion of a string under an allow-list and a token table.
pub open spec fn expand_allowed_spec(s: Seq<char>, allowed: Seq<char>, m: Seq<(char, Seq<char>)>) -> Result<
    Seq<char>,
    char,
> {
    expand_allowed_from(s, allowed, m, 0, false)
}

/// Whether the slice holds the character.
fn contains_char(allowed: &Vec<char>, c: char) -> (b: bool)
    ensures
        b == allowed@.contains(c),
{
    let mut i: usize = 0;
    while i < allowed.len()
        invariant
            i <= allowed@.len(),
            forall|j: int| 0 <= j < i ==> allowed@[j] != c,
        decreases allowed@.len() - i,
    {
        if allowed[i] == c {
            return true;
        }
        i = i + 1;
    }
    proof {
        assert(!allowed@.contains(c));
    }
    false
}

/// Expands a builder field under its allow-list, exactly as
/// `expand_allowed_spec` describes.
fn expand(string: &str, allowed: &Vec<char>, map: &Vec<(char, String)>) -> (r: Result<
    String,
    char,
>)
    ensures
        match expand_allowed_spec(string@, allowed@, table_view(map@)) {
            Result::Ok(v) => r matches Ok(rs) && rs@ == v,
            Result::Err(c) => r matches Err(e) && e == c,
        },
{
    let s = crate::text::chars_of(string);
    let mut res: Vec<char> = Vec::new();
    let mut replace_next: bool = false;
    let mut i: usize = 0;
    while i < s.len()
        invariant
            i <= s@.len(),
            s@ == string@,
            ({
                let total = expand_allowed_spec(string@, allowed@, table_view(map@));
                let tail = expand_allowed_from(string@, allowed@, table_view(map@), i as int, replace_next);
                match tail {
                    Result::Ok(rest) => total == Result::<Seq<char>, char>::Ok(res@ + rest),
                    Result::Err(c) => total == Result::<Seq<char>, char>::Err(c),
                }
            }),
        decreases s@.len() - i,
    {
        let c = s[i];
        let ghost pre = res@;
        if replace_next && c == '%' {
            replace_next = false;
            res.push(c);
            proof {
                if let Result::Ok(rest) = expand_allowed_from(
                    string@,
                    allowed@,
                    table_view(map@),
                    i as int + 1,
                    false,
                ) {
                    assert(pre + (seq![c] + rest) =~= res@ + rest);
                }
            }
        } else if replace_next && contains_char(allowed, c) {
            replace_next = false;
            match lookup(map, c) {
                Option::Some(value) => {
                    let mut vc = crate::text::chars_of(value.as_str());
                    let ghost vview = vc@;
                    res.append(&mut vc);
                    proof {
                        if let Result::Ok(rest) = expand_allowed_from(
                            string@,
                            allowed@,
                            table_view(map@),
                            i as int + 1,
                            false,
                        ) {
                            assert(pre + (vview + rest) =~= res@ + rest);
                        }
                    }
                },
                Option::None => {
                    res.push('%');
                    res.push(c);
                    proof {
                        if let Result::Ok(rest) = expand_allowed_from(
                            string@,
                            allowed@,
                            table_view(map@),
                            i as int + 1,
                            false,
                        ) {
                            assert(pre + (seq!['%', c] + rest) =~= res@ + rest);
                        }
                    }
                },
            }
        } else if replace_next {
            return Result::Err(c);
        } else if c == '%' {
            replace_next = true;
        } else {
            res.push(c);
            proof {
                if let Result::Ok(rest) = expand_allowed_from(
                    string@,
                    allowed@,
                    table_view(map@),
                    i as int + 1,
                    false,
                ) {
                    assert(pre + (seq![c] + rest) =~= res@ + rest);
                }
            }
        }
        i = i + 1;
    }
    Result::Ok(crate::text::string_from_chars(&res))
}

/// The options a session runs with, fully resolved.
pub struct Options {
    pub container: Container,
    pub environment: String,
    pub escape_char: Option<char>,
    pub host_name: String,
    pub log_level: LogLevel,
    pub port: u16,
    pub protocol: Protocol,
    pub remote_command: String,
    pub request_tty: RequestTTY,
    pub send_env: Vec<Pattern>,
    pub service: String,
    pub stack: String,
    pub user: String,
}

/// The options as the specification sees them.
pub struct OptionsView {
    pub container: Container,
    pub environment: Seq<char>,
    pub escape_char: Option<char>,
    pub host_name: Seq<char>,
    pub log_level: LogLevel,
    pub port: u16,
    pub protocol: Protocol,
    pub remote_command: Seq<char>,
    pub request_tty: RequestTTY,
    pub send_env: Seq<Seq<Token>>,
    pub service: Seq<char>,
    pub stack: Seq<char>,
    pub user: Seq<char>,
}

impl View for Options {
    type V = OptionsView;

    open spec fn view(&self) -> OptionsView {
        OptionsView {
            container: self.container,
            environment: self.environment@,
            escape_char: self.escape_char,
            host_name: self.host_name@,
            log_level: self.log_level,
            port: self.port,
            protocol: self.protocol,
            remote_command: self.remote_command@,
            request_tty: self.request_tty,
            send_env: self.send_env@.map_values(|p: Pattern| p@),
            service: self.service@,
            stack: self.stack@,
            user: self.user@,
        }
    }
}

/// The base URL of the platform: scheme, host, and the port when it is not
/// the scheme's own.
pub open spec fn url_view(o: OptionsView) -> Seq<char> {
    scheme_str(o.protocol) + "://"@ + o.host_name + (if o.port == default_port_spec(o.protocol) {
        Seq::<char>::empty()
    } else {
        seq![':'] + dec_str(o.port as int)
    })
}

/// The host with the port when it is not the scheme's own: the key under
/// which credentials for this host are cached.
pub open spec fn host_with_port_view(o: OptionsView) -> Seq<char> {
    o.host_name + (if o.port == default_port_spec(o.protocol) {
        Seq::<char>::empty()
    } else {
        seq![':'] + dec_str(o.port as int)
    })
}

impl Options {
    /// The base URL of the platform, exactly as `url_view` describes.
    pub fn url(&self) -> (r: String)
        ensures
            r@ == url_view(self@),
    {
        let mut r = concat_str(self.protocol.name(), "://");
        r.append(self.host_name.as_str());
        if self.port != self.protocol.default_port() {
            push_char(&mut r, ':');
            let p = u16_to_string(self.port);
            r.append(p.as_str());
        }
        r
    }

    /// The credential-cache key, exactly as `host_with_port_view` describes.
    pub fn host_with_port(&self) -> (r: String)
        ensures
            r@ == host_with_port_view(self@),
    {
        let mut r = self.host_name.clone();
        if self.port != self.protocol.default_port() {
            push_char(&mut r, ':');
            let p = u16_to_string(self.port);
            r.append(p.as_str());
        }
        r
    }
}

/// Collects option values before they are resolved into `Options`.
pub struct OptionsBuilder {
    pub tokens: Vec<(char, String)>,
    pub container: Container,
    pub environment: Option<String>,
    pub escape_char: Option<char>,
    pub host_name: Option<String>,
    pub log_level: LogLevel,
    pub port: Option<u16>,
    pub protocol: Protocol,
    pub remote_command: Option<String>,
    pub request_tty: RequestTTY,
    pub send_env: Vec<Pattern>,
    pub service: Option<String>,
    pub stack: Option<String>,
    pub user: Option<String>,
}

impl Default for OptionsBuilder {
    fn default() -> (r: OptionsBuilder)
        ensures
            r.tokens@ == Seq::<(char, String)>::empty(),
            r.container == Container::First,
            r.environment is None,
            r.escape_char is None,
            r.host_name is None,
            r.log_level == LogLevel::Info,
            r.port is None,
            r.protocol == Protocol::Https,
            r.remote_command is None,
            r.request_tty == RequestTTY::Auto,
            r.send_env@ == Seq::<Pattern>::empty(),
            r.service is None,
            r.stack is None,
            r.user is None,
    {
        OptionsBuilder {
            tokens: Vec::new(),
            container: Container::First,
            environment: Option::None,
            escape_char: Option::None,
            host_name: Option::None,
            log_level: LogLevel::Info,
            port: Option::None,
            protocol: Protocol::Https,
            remote_command: Option::None,
            request_tty: RequestTTY::Auto,
            send_env: Vec::new(),
            service: Option::None,
            stack: Option::None,
            user: Option::None,
        }
    }
}

/// The user the session logs in as: the builder's, else the caller's
/// fallback, else `root`.
pub open spec fn user_view(user: Option<String>, fallback: Option<String>) -> Seq<char> {
    match user {
        Option::Some(u) => u@,
        Option::None => match fallback {
            Option::Some(f) => f@,
            Option::None => "root"@,
        },
    }
}

/// The remote command, defaulting to an interactive login as `%r`.
pub open spec fn remote_command_view(rc: Option<String>) -> Seq<char> {
    match rc {
        Option::Some(r) => r@,
        Option::None => "login -p -f %r"@,
    }
}

/// What building yields: the resolved options, or the first failure, in the
/// order the fields are resolved — environment, host name, remote command,
/// stack, service.
pub open spec fn build_spec(b: OptionsBuilder, fallback: Option<String>) -> Result<
    OptionsView,
    BuildError,
> {
    let user = user_view(b.user, fallback);
    let m = seq![('r', user)] + table_view(b.tokens@);
    match b.environment {
        Option::None => Result::Err(BuildError::MissingEnvironment),
        Option::Some(env_raw) => match expand_allowed_spec(env_raw@, seq!['e', 'S', 's'], m) {
            Result::Err(c) => Result::Err(BuildError::UnknownToken(c)),
            Result::Ok(environment) => match b.host_name {
                Option::None => Result::Err(BuildError::MissingHostName),
                Option::Some(host_raw) => match expand_allowed_spec(host_raw@, seq!['h'], m) {
                    Result::Err(c) => Result::Err(BuildError::UnknownToken(c)),
                    Result::Ok(host_name) => match expand_allowed_spec(
                        remote_command_view(b.remote_command),
                        seq!['r'],
                        m,
                    ) {
                        Result::Err(c) => Result::Err(BuildError::UnknownToken(c)),
                        Result::Ok(remote_command) => match b.stack {
                            Option::None => Result::Err(BuildError::MissingStack),
                            Option::Some(stack_raw) => match expand_allowed_spec(
                                stack_raw@,
                                seq!['e', 'S', 's'],
                                m,
                            ) {
                                Result::Err(c) => Result::Err(BuildError::UnknownToken(c)),
                                Result::Ok(stack) => match b.service {
                                    Option::None => Result::Err(BuildError::MissingService),
                                    Option::Some(service_raw) => match expand_allowed_spec(
                                        service_raw@,
                                        seq!['e', 'S', 's'],
                                        m,
                                    ) {
                                        Result::Err(c) => Result::Err(BuildError::UnknownToken(c)),
                                        Result::Ok(service) => Result::Ok(OptionsView {
                                            container: b.container,
                                            environment,
                                            escape_char: b.escape_char,
                                            host_name,
                                            log_level: b.log_level,
                                            port: match b.port {
                                                Option::Some(p) => p,
                                                Option::None => default_port_spec(b.protocol),
                                            },
                                            protocol: b.protocol,
                                            remote_command,
                                            request_tty: b.request_tty,
                                            send_env: b.send_env@.map_values(|p: Pattern| p@),
                                            service,
                                            stack,
                                            user,
                                        }),
                                    },
                                },
                            },
                        },
                    },
                },
            },
        },
    }
}

impl OptionsBuilder {
    /// Binds a token character; a later binding for the same character wins.
    pub fn token(&mut self, token: char, replacement: String)
        ensures
            *final(self) == (OptionsBuilder {
                tokens: final(self).tokens,
                ..*old(self)
            }),
            final(self).tokens@ == seq![(token, replacement)] + old(self).tokens@,
    {
        self.tokens.insert(0, (token, replacement));
    }

    /// Sets the container-selection policy.
    pub fn container(&mut self, container: Container)
        ensures
            *final(self) == (OptionsBuilder { container, ..*old(self) }),
    {
        self.container = container;
    }

    /// Sets the environment name.
    pub fn environment(&mut self, environment: String)
        ensures
            *final(self) == (OptionsBuilder {
                environment: Option::Some(environment),
                ..*old(self)
            }),
    {
        self.environment = Option::Some(environment);
    }

    /// Sets the escape character.
    pub fn escape_char(&mut self, escape_char: char)
        ensures
            *final(self) == (OptionsBuilder {
                escape_char: Option::Some(escape_char),
                ..*old(self)
            }),
    {
        self.escape_char = Option::Some(escape_char);
    }

    /// Sets the host name.
    pub fn host_name(&mut self, host_name: String)
        ensures
            *final(self) == (OptionsBuilder {
                host_name: Option::Some(host_name),
                ..*old(self)
            }),
    {
        self.host_name = Option::Some(host_name);
    }

    /// Sets the log level.
    pub fn log_level(&mut self, log_level: LogLevel)
        ensures
            *final(self) == (OptionsBuilder { log_level, ..*old(self) }),
    {
        self.log_level = log_level;
    }

    /// Sets the port.
    pub fn port(&mut self, port: u16)
        ensures
            *final(self) == (OptionsBuilder { port: Option::Some(port), ..*old(self) }),
    {
        self.port = Option::Some(port);
    }

    /// Sets the protocol.
    pub fn protocol(&mut self, protocol: Protocol)
        ensures
            *final(self) == (OptionsBuilder { protocol, ..*old(self) }),
    {
        self.protocol = protocol;
    }

    /// Sets the remote command.
    pub fn remote_command(&mut self, remote_command: String)
        ensures
            *final(self) == (OptionsBuilder {
                remote_command: Option::Some(remote_command),
                ..*old(self)
            }),
    {
        self.remote_command = Option::Some(remote_command);
    }

    /// Sets the terminal request.
    pub fn request_tty(&mut self, request_tty: RequestTTY)
        ensures
            *final(self) == (OptionsBuilder { request_tty, ..*old(self) }),
    {
        self.request_tty = request_tty;
    }

    /// Adds one pattern to the environment-variable send list.
    pub fn send_env(&mut self, pattern: Pattern)
        ensures
            *final(self) == (OptionsBuilder {
                send_env: final(self).send_env,
                ..*old(self)
            }),
            final(self).send_env@.len() == old(self).send_env@.len() + 1,
            final(self).send_env@.last()@ == pattern@,
            forall|i: int|
                0 <= i < old(self).send_env@.len() ==> final(self).send_env@[i] == old(
                    self,
                ).send_env@[i],
    {
        self.send_env.push(pattern);
    }

    /// Sets the service name.
    pub fn service(&mut self, service: String)
        ensures
            *final(self) == (OptionsBuilder { service: Option::Some(service), ..*old(self) }),
    {
        self.service = Option::Some(service);
    }

    /// Sets the stack name.
    pub fn stack(&mut self, stack: String)
        ensures
            *final(self) == (OptionsBuilder { stack: Option::Some(stack), ..*old(self) }),
    {
        self.stack = Option::Some(stack);
    }

    /// Sets the user.
    pub fn user(&mut self, user: String)
        ensures
            *final(self) == (OptionsBuilder { user: Option::Some(user), ..*old(self) }),
    {
        self.user = Option::Some(user);
    }

    /// Resolves the builder into options, exactly as `build_spec` describes;
    /// `fallback_user` is the local account name, used when no user was set.
    pub fn build(self, fallback_user: Option<String>) -> (r: Result<Options, BuildError>)
        ensures
            match build_spec(self, fallback_user) {
                Result::Ok(v) => r matches Ok(o) && o@ == v,
                Result::Err(e) => r matches Err(x) && x == e,
            },
    {
        let ghost gself = self;
        let ghost gfallback = fallback_user;
        let user: String = match self.user {
            Option::Some(ref v) => v.clone(),
            Option::None => match fallback_user {
                Option::Some(f) => f,
                Option::None => "root".to_owned(),
            },
        };
        let mut tokens = self.tokens;
        tokens.insert(0, ('r', user.clone()));
        proof {
            assert(table_view(tokens@) =~= seq![('r', user_view(gself.user, gfallback))]
                + table_view(gself.tokens@));
        }
        let mut allowed_section: Vec<char> = Vec::new();
        allowed_section.push('e');
        allowed_section.push('S');
        allowed_section.push('s');
        proof {
            assert(allowed_section@ =~= seq!['e', 'S', 's']);
        }
        let environment_raw = match self.environment {
            Option::Some(v) => v,
            Option::None => {
                return Result::Err(BuildError::MissingEnvironment);
            },
        };
        let environment = match expand(environment_raw.as_str(), &allowed_section, &tokens) {
            Result::Ok(v) => v,
            Result::Err(c) => {
                return Result::Err(BuildError::UnknownToken(c));
            },
        };
        let mut allowed_host: Vec<char> = Vec::new();
        allowed_host.push('h');
        proof {
            assert(allowed_host@ =~= seq!['h']);
        }
        let host_raw = match self.host_name {
            Option::Some(v) => v,
            Option::None => {
                return Result::Err(BuildError::MissingHostName);
            },
        };
        let host_name = match expand(host_raw.as_str(), &allowed_host, &tokens) {
            Result::Ok(v) => v,
            Result::Err(c) => {
                return Result::Err(BuildError::UnknownToken(c));
            },
        };
        let mut allowed_user: Vec<char> = Vec::new();
        allowed_user.push('r');
        proof {
            assert(allowed_user@ =~= seq!['r']);
        }
        let remote_raw = match self.remote_command {
            Option::Some(v) => v,
            Option::None => "login -p -f %r".to_owned(),
        };
        let remote_command = match expand(remote_raw.as_str(), &allowed_user, &tokens) {
            Result::Ok(v) => v,
            Result::Err(c) => {
                return Result::Err(BuildError::UnknownToken(c));
            },
        };
        let stack_raw = match self.stack {
            Option::Some(v) => v,
            Option::None => {
                return Result::Err(BuildError::MissingStack);
            },
        };
        let stack = match expand(stack_raw.as_str(), &allowed_section, &tokens) {
            Result::Ok(v) => v,
            Result::Err(c) => {
                return Result::Err(BuildError::UnknownToken(c));
            },
        };
        let service_raw = match self.service {
            Option::Some(v) => v,
            Option::None => {
                return Result::Err(BuildError::MissingService);
            },
        };
        let service = match expand(service_raw.as_str(), &allowed_section, &tokens) {
            Result::Ok(v) => v,
            Result::Err(c) => {
                return Result::Err(BuildError::UnknownToken(c));
            },
        };
        let port = match self.port {
            Option::Some(p) => p,
            Option::None => self.protocol.default_port(),
        };
        Result::Ok(Options {
            container: self.container,
            environment,
            escape_char: self.escape_char,
            host_name,
            log_level: self.log_level,
            port,
            protocol: self.protocol,
            remote_command,
            request_tty: self.request_tty,
            send_env: self.send_env,
            service,
            stack,
            user,
        })
    }
}

} // verus!
