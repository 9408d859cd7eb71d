//! The container platform's client-side logic: locating a runnable
//! container across the platform's paginated four-level hierarchy, and the
//! one-retry authentication policy around it.
//!
//! All remote I/O stays outside: the resolver is a state machine that is
//! handed each fetched page as plain values and answers with the next URL
//! to fetch, the final containers, or a failure.

use vstd::prelude::*;
use crate::escape::ascii_char;

verus! {

/// Why a platform interaction failed.
#[derive(Debug)]
pub enum Error {
    /// A collection was exhausted without a match, or an expected link was
    /// missing: the remote shape did not hold what resolution needs.
    Empty,
    /// No environment name was given and the platform did not hold exactly
    /// one project: never guessed.
    CouldNotDetermineEnvironment,
    /// The platform answered a request with a 401.
    Unauthorized,
    /// The transport failed; the text says how.
    HttpError(String),
}

/// A long-lived credential pair obtained from one interactive login.
#[derive(Debug)]
pub struct ApiKey {
    pub public_value: String,
    pub secret_value: String,
}

/// The body of an exec request: attach both streams and run this command.
#[derive(Debug)]
pub struct ContainerExec {
    pub attach_stdin: bool,
    pub attach_stdout: bool,
    pub command: Vec<String>,
    pub tty: bool,
}

impl ContainerExec {
    /// An exec request always attaches both standard streams.
    pub fn new(command: Vec<String>, tty: bool) -> (r: ContainerExec)
        ensures
            r.attach_stdin == true,
            r.attach_stdout == true,
            r.command@ == command@,
            r.tty == tty,
    {
        ContainerExec { attach_stdin: true, attach_stdout: true, command, tty }
    }
}

/// The body of the token exchange: the credentials, joined as the platform
/// expects, against its LDAP provider.
#[derive(Debug)]
pub struct TokenRequest {
    pub code: String,
    pub auth_provider: String,
}

impl TokenRequest {
    /// The exchange runs the `user:password` pair against `ldapconfig`.
    pub fn new(user: &str, password: &str) -> (r: TokenRequest)
        ensures
            r.code@ == user@ + seq![':'] + password@,
            r.auth_provider@ == "ldapconfig"@,
    {
        let mut code = user.to_owned();
        crate::text::push_char(&mut code, ':');
        code.append(password);
        TokenRequest { code, auth_provider: "ldapconfig".to_owned() }
    }
}

/// What the token exchange returns: a short-lived bearer token.
#[derive(Debug)]
pub struct Token {
    pub account_id: String,
    pub jwt: String,
}

/// The body of the key exchange: a durable key for this account.
#[derive(Debug)]
pub struct ApiKeyRequest {
    pub account_id: String,
    pub name: String,
    pub description: String,
}

impl ApiKeyRequest {
    /// The durable key is requested for the token's account.
    pub fn for_account(account_id: String) -> (r: ApiKeyRequest)
        ensures
            r.account_id@ == account_id@,
            r.name@ == "rsh"@,
            r.description@ == "Rancher SHell"@,
    {
        ApiKeyRequest { account_id, name: "rsh".to_owned(), description: "Rancher SHell".to_owned() }
    }
}

/// How one REST response is to be read: a 401 is an authorization failure,
/// anything else is handed on to be decoded.
pub fn status_outcome(status: u16) -> (r: Result<(), Error>)
    ensures
        status == 401 ==> (r matches Err(e) && e is Unauthorized),
        status != 401 ==> r is Ok,
{
    if status == 401 {
        Result::Err(Error::Unauthorized)
    } else {
        Result::Ok(())
    }
}

/// One entry of a platform collection: its name, its named links to child
/// collections, and its named action endpoints.
#[derive(Debug)]
pub struct Entry {
    pub name: String,
    pub links: Vec<(String, String)>,
    pub actions: Vec<(String, String)>,
}

/// One page of a paginated collection, with the link to the next page when
/// there is one.
#[derive(Debug)]
pub struct Page {
    pub data: Vec<Entry>,
    pub next: Option<String>,
}

/// The URL a named link points to, first binding first.
pub open spec fn link_of(links: Seq<(String, String)>, key: Seq<char>) -> Option<Seq<char>>
    decreases links.len(),
{
    if links.len() == 0 {
        Option::None
    } else if links[0].0@ == key {
        Option::Some(links[0].1@)
    } else {
        link_of(links.drop_first(), key)
    }
}

/// The first entry with the given name.
pub open spec fn find_named(data: Seq<Entry>, name: Seq<char>) -> Option<Entry>
    decreases data.len(),
{
    if data.len() == 0 {
        Option::None
    } else if data[0].name@ == name {
        Option::Some(data[0])
    } else {
        find_named(data.drop_first(), name)
    }
}

/// Whether the entry offers the named action.
pub open spec fn has_action(e: Entry, action: Seq<char>) -> bool {
    link_of(e.actions@, action) is Some
}

/// The entries that offer the named action, in order.
pub open spec fn filter_action(data: Seq<Entry>, action: Seq<char>) -> Seq<Entry>
    decreases data.len(),
{
    if data.len() == 0 {
        Seq::empty()
    } else {
        let rest = filter_action(data.drop_first(), action);
        if has_action(data[0], action) {
            seq![data[0]] + rest
        } else {
            rest
        }
    }
}

/// A URL with one more query item appended: after `?` when it is the first,
/// after `&` otherwise.
pub open spec fn append_query(u: Seq<char>, kv: Seq<char>) -> Seq<char> {
    u + (if u.contains('?') {
        seq!['&']
    } else {
        seq!['?']
    }) + kv
}

/// The URL a named link points to, as a fresh string.
fn lookup_link(links: &Vec<(String, String)>, key: &str) -> (r: Option<String>)
    ensures
        match r {
            Option::Some(v) => link_of(links@, key@) == Option::Some(v@),
            Option::None => link_of(links@, key@) is None,
        },
{
    let mut i: usize = 0;
    proof {
        assert(links@.skip(0) =~= links@);
    }
    while i < links.len()
        invariant
            i <= links@.len(),
            link_of(links@, key@) == link_of(links@.skip(i as int), key@),
        decreases links@.len() - i,
    {
        proof {
            assert(links@.skip(i as int)[0] == links@[i as int]);
            assert(links@.skip(i as int).drop_first() =~= links@.skip(i as int + 1));
        }
        if crate::text::str_eq(links[i].0.as_str(), key) {
            return Option::Some(links[i].1.clone());
        }
        i = i + 1;
    }
    Option::None
}

/// Appends one query item to a URL.
fn append_query_str(u: &str, kv: &str) -> (r: String)
    ensures
        r@ == append_query(u@, kv@),
{
    let cs = crate::text::chars_of(u);
    let mut has_q: bool = false;
    let mut i: usize = 0;
    while i < cs.len()
        invariant
            i <= cs@.len(),
            cs@ == u@,
            has_q == u@.subrange(0, i as int).contains('?'),
        decreases cs@.len() - i,
    {
        let ghost pre = u@.subrange(0, i as int);
        if cs[i] == '?' {
            has_q = true;
        }
        proof {
            let ext = u@.subrange(0, i as int + 1);
            assert(ext =~= pre.push(u@[i as int]));
            if pre.contains('?') {
                let j = choose|j: int| 0 <= j < pre.len() && pre[j] == '?';
                assert(ext[j] == '?');
                assert(ext.contains('?'));
            } else if u@[i as int] == '?' {
                assert(ext[i as int] == '?');
                assert(ext.contains('?'));
            } else {
                assert forall|j: int| 0 <= j < ext.len() implies ext[j] != '?' by {
                    if j < i as int {
                        assert(ext[j] == pre[j]);
                        assert(!pre.contains('?'));
                    }
                }
                assert(!ext.contains('?'));
            }
        }
        i = i + 1;
    }
    proof {
        assert(u@.subrange(0, u@.len() as int) =~= u@);
    }
    let mut r = u.to_owned();
    crate::text::push_char(&mut r, if has_q { '&' } else { '?' });
    r.append(kv);
    proof {
        assert(r@ =~= append_query(u@, kv@));
    }
    r
}

/// The index endpoint under a base URL.
pub fn index_url(base: &str) -> (r: String)
    ensures
        r@ == base@ + "/v2-beta"@,
{
    crate::text::concat_str(base, "/v2-beta")
}

/// The token-exchange endpoint under a base URL.
pub fn token_url(base: &str) -> (r: String)
    ensures
        r@ == base@ + "/v2-beta/token"@,
{
    crate::text::concat_str(base, "/v2-beta/token")
}

/// The key-exchange endpoint under a base URL.
pub fn api_key_url(base: &str) -> (r: String)
    ensures
        r@ == base@ + "/v2-beta/apikey"@,
{
    crate::text::concat_str(base, "/v2-beta/apikey")
}

/// The hexadecimal digit for one value below sixteen, upper case.
pub open spec fn hex_digit(d: int) -> char {
    if d < 10 {
        crate::text::digit_char(d)
    } else if d == 10 {
        'A'
    } else if d == 11 {
        'B'
    } else if d == 12 {
        'C'
    } else if d == 13 {
        'D'
    } else if d == 14 {
        'E'
    } else {
        'F'
    }
}

/// A character that may stand unescaped in a query value.
pub open spec fn query_safe(c: char) -> bool {
    ||| ('a' <= c && c <= 'z')
    ||| ('A' <= c && c <= 'Z')
    ||| ('0' <= c && c <= '9')
    ||| c == '-'
    ||| c == '_'
    ||| c == '.'
    ||| c == '~'
}

/// One character of a query value, percent-escaped when it must be.
pub open spec fn query_escape_char(c: char) -> Seq<char> {
    if query_safe(c) {
        seq![c]
    } else {
        seq!['%', hex_digit((c as u32) as int / 16), hex_digit((c as u32) as int % 16)]
    }
}

/// A query value with every unsafe character percent-escaped.
pub open spec fn query_escape(s: Seq<char>) -> Seq<char>
    decreases s.len(),
{
    if s.len() == 0 {
        Seq::empty()
    } else {
        query_escape_char(s[0]) + query_escape(s.drop_first())
    }
}

/// The duplex-channel address with its one-time token attached, ready for
/// the transport handshake.
#[derive(Debug)]
pub struct HostAccess {
    pub token: String,
    pub url: String,
}

impl HostAccess {
    /// The channel URL with the token as a query item, the token
    /// percent-escaped; the exec token the platform hands out is plain
    /// ASCII.
    pub fn authed_url(&self) -> (r: String)
        requires
            forall|i: int| 0 <= i < self.token@.len() ==> ascii_char(#[trigger] self.token@[i]),
        ensures
            r@ == append_query(self.url@, "token="@ + query_escape(self.token@)),
    {
        let cs = crate::text::chars_of(self.token.as_str());
        let mut enc: Vec<char> = Vec::new();
        let mut i: usize = 0;
        while i < cs.len()
            invariant
                i <= cs@.len(),
                cs@ == self.token@,
                forall|j: int| 0 <= j < cs@.len() ==> ascii_char(#[trigger] cs@[j]),
                enc@ == query_escape(self.token@.subrange(0, i as int)),
            decreases cs@.len() - i,
        {
            let ghost pre = self.token@.subrange(0, i as int);
            let c = cs[i];
            if ('a' <= c && c <= 'z') || ('A' <= c && c <= 'Z') || ('0' <= c && c <= '9') || c
                == '-' || c == '_' || c == '.' || c == '~' {
                enc.push(c);
            } else {
                enc.push('%');
                let code: u32 = c as u32;
                enc.push(hex_digit_of(code / 16));
                enc.push(hex_digit_of(code % 16));
            }
            proof {
                lemma_query_escape_snoc(self.token@, i as int);
                assert(enc@ =~= query_escape(self.token@.subrange(0, i as int + 1)));
            }
            i = i + 1;
        }
        proof {
            assert(self.token@.subrange(0, self.token@.len() as int) =~= self.token@);
        }
        let mut kv = "token=".to_owned();
        let encs = crate::text::string_from_chars(&enc);
        kv.append(encs.as_str());
        append_query_str(self.url.as_str(), kv.as_str())
    }
}

/// Escaping a prefix one character longer appends that character's escape.
proof fn lemma_query_escape_snoc(s: Seq<char>, i: int)
    requires
        0 <= i < s.len(),
    ensures
        query_escape(s.subrange(0, i + 1)) == query_escape(s.subrange(0, i)) + query_escape_char(
            s[i],
        ),
    decreases i,
{
    let a = s.subrange(0, i + 1);
    let b = s.subrange(0, i);
    if i == 0 {
        assert(a.drop_first() =~= Seq::<char>::empty());
        assert(query_escape(b) + query_escape_char(s[0]) =~= query_escape_char(s[0]));
        assert(query_escape(a) == query_escape_char(a[0]) + query_escape(a.drop_first()));
        assert(query_escape(a) =~= query_escape_char(s[0]));
    } else {
        lemma_query_escape_snoc(s.skip(1), i - 1);
        assert(a.drop_first() =~= s.skip(1).subrange(0, i));
        assert(b.drop_first() =~= s.skip(1).subrange(0, i - 1));
        assert(s.skip(1)[i - 1] == s[i]);
        assert(query_escape(a) == query_escape_char(a[0]) + query_escape(a.drop_first()));
        assert(query_escape(b) == query_escape_char(b[0]) + query_escape(b.drop_first()));
        assert(query_escape_char(a[0]) + (query_escape(b.drop_first()) + query_escape_char(s[i]))
            =~= (query_escape_char(b[0]) + query_escape(b.drop_first())) + query_escape_char(s[i]));
    }
}

/// Runtime twin of `hex_digit`.
fn hex_digit_of(d: u32) -> (c: char)
    requires
        d < 16,
    ensures
        c == hex_digit(d as int),
{
    if d == 0 {
        '0'
    } else if d == 1 {
        '1'
    } else if d == 2 {
        '2'
    } else if d == 3 {
        '3'
    } else if d == 4 {
        '4'
    } else if d == 5 {
        '5'
    } else if d == 6 {
        '6'
    } else if d == 7 {
        '7'
    } else if d == 8 {
        '8'
    } else if d == 9 {
        '9'
    } else if d == 10 {
        'A'
    } else if d == 11 {
        'B'
    } else if d == 12 {
        'C'
    } else if d == 13 {
        'D'
    } else if d == 14 {
        'E'
    } else {
        'F'
    }
}

/// The first entry with the given name, taken out of the page.
fn take_named(data: Vec<Entry>, name: &str) -> (r: Option<Entry>)
    ensures
        match r {
            Option::Some(e) => find_named(data@, name@) == Option::Some(e),
            Option::None => find_named(data@, name@) is None,
        },
{
    let ghost orig = data@;
    let mut d = data;
    let mut i: usize = 0;
    proof {
        assert(orig.skip(0) =~= orig);
    }
    while i < d.len()
        invariant
            i <= orig.len(),
            d@ == orig,
            data@ == orig,
            find_named(orig, name@) == find_named(orig.skip(i as int), name@),
        decreases orig.len() - i,
    {
        proof {
            assert(orig.skip(i as int)[0] == orig[i as int]);
            assert(orig.skip(i as int).drop_first() =~= orig.skip(i as int + 1));
        }
        if crate::text::str_eq(d[i].name.as_str(), name) {
            proof {
                assert(find_named(orig.skip(i as int), name@) == Option::Some(orig[i as int]));
            }
            let e = d.remove(i);
            return Option::Some(e);
        }
        i = i + 1;
    }
    proof {
        assert(orig.skip(orig.len() as int) =~= Seq::<Entry>::empty());
    }
    Option::None
}

/// Whether the entry offers the named action.
fn entry_has_action(e: &Entry, action: &str) -> (b: bool)
    ensures
        b == has_action(*e, action@),
{
    match lookup_link(&e.actions, action) {
        Option::Some(_) => true,
        Option::None => false,
    }
}

/// The entries of one page that offer the named action, in page order.
fn filter_entries(data: Vec<Entry>, action: &str) -> (r: Vec<Entry>)
    ensures
        r@ == filter_action(data@, action@),
{
    let ghost orig = data@;
    let mut data = data;
    let mut r: Vec<Entry> = Vec::new();
    while data.len() > 0
        invariant
            filter_action(orig, action@) == r@ + filter_action(data@, action@),
        decreases data@.len(),
    {
        let ghost pre = data@;
        let ghost racc = r@;
        let e = data.remove(0);
        proof {
            assert(data@ =~= pre.drop_first());
        }
        if entry_has_action(&e, action) {
            r.push(e);
            proof {
                assert(racc + (seq![pre[0]] + filter_action(pre.drop_first(), action@)) =~= r@
                    + filter_action(pre.drop_first(), action@));
            }
        }
        proof {
            assert(filter_action(orig, action@) == r@ + filter_action(data@, action@));
        }
    }
    proof {
        assert(r@ + filter_action(data@, action@) =~= r@);
    }
    r
}

/// Where resolution stands: which level of the hierarchy the next fetched
/// page belongs to.
#[derive(Clone, Copy, PartialEq, Eq, Structural, Debug)]
pub enum Phase {
    /// Awaiting the platform's root index.
    Index,
    /// Searching the paginated projects for the environment.
    Projects,
    /// Searching the project's stacks.
    Stacks,
    /// Searching the stack's services.
    Services,
    /// Collecting the service's instances that offer the action.
    Instances,
    /// Resolution ended, in success or failure.
    Finished,
}

/// What the resolver asks of its driver after each page.
pub enum ResolveStep {
    /// Fetch this URL and hand back the page.
    Fetch(String),
    /// Resolution succeeded with these containers.
    Done(Vec<Entry>),
    /// Resolution failed; nothing more to fetch.
    Fail(Error),
}

/// Walks environment, stack, service and container across the platform's
/// paginated collections, one fetched page at a time.
pub struct ContainerResolver {
    /// The environment name to match, or none to auto-select a sole project.
    pub environment: Option<String>,
    pub stack: String,
    pub service: String,
    /// The action a container must offer, `execute` or `logs`.
    pub action: String,
    pub phase: Phase,
    /// In the auto-select case, every project seen so far.
    pub candidates: Vec<Entry>,
    /// The matching containers collected so far.
    pub found: Vec<Entry>,
}

impl ContainerResolver {
    /// A fresh resolution: the first page the driver hands in is the root
    /// index, fetched from `index_url` of the platform's base URL.
    pub fn new(environment: Option<String>, stack: String, service: String, action: String) -> (r:
        ContainerResolver)
        ensures
            r.environment == environment,
            r.stack == stack,
            r.service == service,
            r.action == action,
            r.phase == Phase::Index,
            r.candidates@ == Seq::<Entry>::empty(),
            r.found@ == Seq::<Entry>::empty(),
    {
        ContainerResolver {
            environment,
            stack,
            service,
            action,
            phase: Phase::Index,
            candidates: Vec::new(),
            found: Vec::new(),
        }
    }

    /// Reads the root index: resolution follows the `projects` link — with
    /// `all=true` asked of it — and a missing link is a structural failure.
    pub fn on_index(&mut self, links: Vec<(String, String)>) -> (r: ResolveStep)
        requires
            old(self).phase == Phase::Index,
        ensures
            final(self).environment == old(self).environment,
            final(self).stack == old(self).stack,
            final(self).service == old(self).service,
            final(self).action == old(self).action,
            final(self).candidates@ == old(self).candidates@,
            final(self).found@ == old(self).found@,
            match link_of(links@, "projects"@) {
                Option::Some(u) => (r matches ResolveStep::Fetch(x) && x@ == append_query(
                    u,
                    "all=true"@,
                )) && final(self).phase == Phase::Projects,
                Option::None => (r matches ResolveStep::Fail(e) && e is Empty) && final(self).phase
                    == Phase::Finished,
            },
    {
        match lookup_link(&links, "projects") {
            Option::Some(u) => {
                self.phase = Phase::Projects;
                ResolveStep::Fetch(append_query_str(u.as_str(), "all=true"))
            },
            Option::None => {
                self.phase = Phase::Finished;
                ResolveStep::Fail(Error::Empty)
            },
        }
    }

    /// Reads one page of the level the resolver is on.
    ///
    /// With an environment name, and at the stack and service levels, the
    /// page is searched for an exact name match whose child link resolution
    /// then follows; an unmatched page recurses into the next page, and an
    /// exhausted collection fails with `Empty`.  With no environment name,
    /// projects are collected across all pages: exactly one is followed,
    /// anything else fails with `CouldNotDetermineEnvironment`.  At the
    /// instance level, entries offering the action are collected across all
    /// pages and returned when the pages end.
    pub fn on_page(&mut self, page: Page) -> (r: ResolveStep)
        requires
            old(self).phase == Phase::Projects || old(self).phase == Phase::Stacks || old(self).phase == Phase::Services || old(self).phase == Phase::Instances,
        ensures
            final(self).environment == old(self).environment,
            final(self).stack == old(self).stack,
            final(self).service == old(self).service,
            final(self).action == old(self).action,
            old(self).phase == Phase::Projects ==> match old(self).environment {
                Option::Some(name) => final(self).candidates@ == old(self).candidates@ && match
                    find_named(page.data@, name@) {
                    Option::Some(e) => match link_of(e.links@, "stacks"@) {
                        Option::Some(u) => (r matches ResolveStep::Fetch(x) && x@ == u) && final(self).phase == Phase::Stacks,
                        Option::None => (r matches ResolveStep::Fail(er) && er is Empty) && final(self).phase == Phase::Finished,
                    },
                    Option::None => match page.next {
                        Option::Some(u) => (r matches ResolveStep::Fetch(x) && x@ == u@) && final(self).phase == Phase::Projects,
                        Option::None => (r matches ResolveStep::Fail(er) && er is Empty) && final(self).phase == Phase::Finished,
                    },
                },
                Option::None => {
                    let cand = old(self).candidates@ + page.data@;
                    match page.next {
                        Option::Some(u) => (r matches ResolveStep::Fetch(x) && x@ == u@) && final(self).phase == Phase::Projects && final(self).candidates@ == cand,
                        Option::None => if cand.len() == 1 {
                            match link_of(cand[0].links@, "stacks"@) {
                                Option::Some(u) => (r matches ResolveStep::Fetch(x) && x@ == u)
                                    && final(self).phase == Phase::Stacks,
                                Option::None => (r matches ResolveStep::Fail(er) && er is Empty)
                                    && final(self).phase == Phase::Finished,
                            }
                        } else {
                            (r matches ResolveStep::Fail(er)
                                && er is CouldNotDetermineEnvironment) && final(self).phase
                                == Phase::Finished
                        },
                    }
                },
            },
            old(self).phase == Phase::Stacks ==> final(self).candidates@ == old(self).candidates@
                && match find_named(page.data@, old(self).stack@) {
                Option::Some(e) => match link_of(e.links@, "services"@) {
                    Option::Some(u) => (r matches ResolveStep::Fetch(x) && x@ == u) && final(self).phase == Phase::Services,
                    Option::None => (r matches ResolveStep::Fail(er) && er is Empty) && final(self).phase == Phase::Finished,
                },
                Option::None => match page.next {
                    Option::Some(u) => (r matches ResolveStep::Fetch(x) && x@ == u@) && final(self).phase == Phase::Stacks,
                    Option::None => (r matches ResolveStep::Fail(er) && er is Empty) && final(self).phase == Phase::Finished,
                },
            },
            old(self).phase == Phase::Services ==> final(self).candidates@ == old(self).candidates@
                && match find_named(page.data@, old(self).service@) {
                Option::Some(e) => match link_of(e.links@, "instances"@) {
                    Option::Some(u) => (r matches ResolveStep::Fetch(x) && x@ == u) && final(self).phase == Phase::Instances && final(self).found@ == Seq::<Entry>::empty(),
                    Option::None => (r matches ResolveStep::Fail(er) && er is Empty) && final(self).phase == Phase::Finished,
                },
                Option::None => match page.next {
                    Option::Some(u) => (r matches ResolveStep::Fetch(x) && x@ == u@) && final(self).phase == Phase::Services,
                    Option::None => (r matches ResolveStep::Fail(er) && er is Empty) && final(self).phase == Phase::Finished,
                },
            },
            old(self).phase == Phase::Instances ==> ({
                let collected = old(self).found@ + filter_action(page.data@, old(self).action@);
                match page.next {
                    Option::Some(u) => (r matches ResolveStep::Fetch(x) && x@ == u@) && final(self).phase == Phase::Instances && final(self).found@ == collected,
                    Option::None => (r matches ResolveStep::Done(v) && v@ == collected) && final(self).phase == Phase::Finished,
                }
            }),
    {
        let mut page = page;
        if matches!(self.phase, Phase::Projects) {
            let searching = match &self.environment {
                Option::Some(_) => true,
                Option::None => false,
            };
            if searching {
                let name = match &self.environment {
                    Option::Some(n) => n.clone(),
                    Option::None => String::new(),
                };
                match take_named(page.data, name.as_str()) {
                    Option::Some(e) => match lookup_link(&e.links, "stacks") {
                        Option::Some(u) => {
                            self.phase = Phase::Stacks;
                            ResolveStep::Fetch(u)
                        },
                        Option::None => {
                            self.phase = Phase::Finished;
                            ResolveStep::Fail(Error::Empty)
                        },
                    },
                    Option::None => match page.next {
                        Option::Some(u) => ResolveStep::Fetch(u),
                        Option::None => {
                            self.phase = Phase::Finished;
                            ResolveStep::Fail(Error::Empty)
                        },
                    },
                }
            } else {
                self.candidates.append(&mut page.data);
                match page.next {
                    Option::Some(u) => ResolveStep::Fetch(u),
                    Option::None => {
                        if self.candidates.len() == 1 {
                            match lookup_link(&self.candidates[0].links, "stacks") {
                                Option::Some(u) => {
                                    self.phase = Phase::Stacks;
                                    ResolveStep::Fetch(u)
                                },
                                Option::None => {
                                    self.phase = Phase::Finished;
                                    ResolveStep::Fail(Error::Empty)
                                },
                            }
                        } else {
                            self.phase = Phase::Finished;
                            ResolveStep::Fail(Error::CouldNotDetermineEnvironment)
                        }
                    },
                }
            }
        } else if matches!(self.phase, Phase::Stacks) {
            let name = self.stack.clone();
            match take_named(page.data, name.as_str()) {
                Option::Some(e) => match lookup_link(&e.links, "services") {
                    Option::Some(u) => {
                        self.phase = Phase::Services;
                        ResolveStep::Fetch(u)
                    },
                    Option::None => {
                        self.phase = Phase::Finished;
                        ResolveStep::Fail(Error::Empty)
                    },
                },
                Option::None => match page.next {
                    Option::Some(u) => ResolveStep::Fetch(u),
                    Option::None => {
                        self.phase = Phase::Finished;
                        ResolveStep::Fail(Error::Empty)
                    },
                },
            }
        } else if matches!(self.phase, Phase::Services) {
            let name = self.service.clone();
            match take_named(page.data, name.as_str()) {
                Option::Some(e) => match lookup_link(&e.links, "instances") {
                    Option::Some(u) => {
                        self.phase = Phase::Instances;
                        self.found = Vec::new();
                        ResolveStep::Fetch(u)
                    },
                    Option::None => {
                        self.phase = Phase::Finished;
                        ResolveStep::Fail(Error::Empty)
                    },
                },
                Option::None => match page.next {
                    Option::Some(u) => ResolveStep::Fetch(u),
                    Option::None => {
                        self.phase = Phase::Finished;
                        ResolveStep::Fail(Error::Empty)
                    },
                },
            }
        } else {
            let mut matched = filter_entries(page.data, self.action.as_str());
            self.found.append(&mut matched);
            match page.next {
                Option::Some(u) => ResolveStep::Fetch(u),
                Option::None => {
                    self.phase = Phase::Finished;
                    let mut out: Vec<Entry> = Vec::new();
                    core::mem::swap(&mut out, &mut self.found);
                    ResolveStep::Done(out)
                },
            }
        }
    }
}

/// The one-retry authentication policy: a first `Unauthorized` within one
/// resolution attempt drives an interactive credential exchange and one
/// retry; a second is fatal.
pub struct AuthFlow {
    pub tries: u32,
}

/// What the session does after one resolution attempt.
pub enum AuthDecision {
    /// The attempt succeeded: use these containers.
    UseContainers(Vec<Entry>),
    /// The first `Unauthorized`: prompt for credentials, exchange them for
    /// a key, persist it, wait briefly, and retry once.
    Authenticate,
    /// Any other failure — or a repeated `Unauthorized` — ends resolution.
    Fatal(Error),
}

impl AuthFlow {
    /// A fresh policy: no retry spent yet.
    pub fn new() -> (r: AuthFlow)
        ensures
            r.tries == 0,
    {
        AuthFlow { tries: 0 }
    }

    /// Applies the policy to one attempt's outcome: success passes through,
    /// the first `Unauthorized` spends the one retry, everything else —
    /// including a second `Unauthorized` — is fatal.
    pub fn on_attempt(&mut self, result: Result<Vec<Entry>, Error>) -> (d: AuthDecision)
        ensures
            match result {
                Result::Ok(v) => (d matches AuthDecision::UseContainers(c) && c == v)
                    && final(self).tries == old(self).tries,
                Result::Err(e) => if e is Unauthorized && old(self).tries == 0 {
                    d is Authenticate && final(self).tries == 1
                } else {
                    (d matches AuthDecision::Fatal(x) && x == e)
                        && final(self).tries == old(self).tries
                },
            },
    {
        match result {
            Result::Ok(v) => AuthDecision::UseContainers(v),
            Result::Err(e) => {
                if matches!(e, Error::Unauthorized) && self.tries == 0 {
                    self.tries = 1;
                    AuthDecision::Authenticate
                } else {
                    AuthDecision::Fatal(e)
                }
            },
        }
    }
}

} // verus!
