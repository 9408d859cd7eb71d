//! The session's command-line decisions: exit status, terminal policy,
//! container selection, the remote command line, and the host argument's
//! path split.  All I/O around them stays with the caller.

use vstd::prelude::*;
use crate::escape::ascii_char;
use crate::options::Container;
use crate::options::RequestTTY;
use crate::pattern::PatternList;
use crate::pattern::list_match;
use crate::text::concat_str;
use crate::text::push_char;
use crate::text::str_eq;
use crate::text::u16_to_string;
use crate::text::dec_str;

verus! {

/// How the program ends, and whether usage is printed on the way out.
#[derive(Clone, Copy, PartialEq, Eq, Structural, Debug)]
pub enum ProgramStatus {
    Success,
    SuccessWithHelp,
    Failure,
    FailureWithHelp,
}

impl ProgramStatus {
    /// The process exit code: zero for the successful endings.
    pub fn exit_code(&self) -> (r: i32)
        ensures
            r == if *self == ProgramStatus::Success || *self == ProgramStatus::SuccessWithHelp {
                0int
            } else {
                1int
            },
    {
        match self {
            ProgramStatus::Success => 0,
            ProgramStatus::SuccessWithHelp => 0,
            ProgramStatus::Failure => 1,
            ProgramStatus::FailureWithHelp => 1,
        }
    }

    /// Whether the ending asks for the usage text.
    pub fn wants_help(&self) -> (r: bool)
        ensures
            r == (*self == ProgramStatus::SuccessWithHelp || *self
                == ProgramStatus::FailureWithHelp),
    {
        matches!(self, ProgramStatus::SuccessWithHelp | ProgramStatus::FailureWithHelp)
    }
}

/// Whether one string starts with another.
pub open spec fn starts_with(s: Seq<char>, prefix: Seq<char>) -> bool {
    s.len() >= prefix.len() && s.subrange(0, prefix.len() as int) == prefix
}

/// Whether the remote command is the interactive-login default's shape.
pub fn is_login_command(s: &str) -> (b: bool)
    ensures
        b == starts_with(s@, "login -p -f "@),
{
    let prefix = "login -p -f ";
    let n = prefix.unicode_len();
    if s.unicode_len() < n {
        return false;
    }
    let mut i: usize = 0;
    while i < n
        invariant
            i <= n,
            n == prefix@.len(),
            s@.len() >= n,
            prefix@ == "login -p -f "@,
            s@.subrange(0, i as int) == prefix@.subrange(0, i as int),
        decreases n - i,
    {
        if s.get_char(i) != prefix.get_char(i) {
            proof {
                assert(s@[i as int] != prefix@[i as int]);
                assert(s@.subrange(0, n as int)[i as int] == s@[i as int]);
            }
            return false;
        }
        proof {
            assert(s@.subrange(0, i as int + 1) =~= prefix@.subrange(0, i as int + 1));
        }
        i = i + 1;
    }
    proof {
        assert(prefix@.subrange(0, n as int) =~= prefix@);
    }
    true
}

/// Whether the session asks the platform for a terminal: explicit force and
/// refusal override; a plain request follows local standard output; the
/// automatic policy takes a terminal exactly for an interactive login shown
/// on a terminal.
pub fn tty_policy(request: RequestTTY, interactive_login: bool, stdout_is_tty: bool) -> (b: bool)
    ensures
        b == match request {
            RequestTTY::Force => true,
            RequestTTY::No => false,
            RequestTTY::Yes => stdout_is_tty,
            RequestTTY::Auto => interactive_login && stdout_is_tty,
        },
{
    match request {
        RequestTTY::Force => true,
        RequestTTY::No => false,
        RequestTTY::Yes => stdout_is_tty,
        RequestTTY::Auto => interactive_login && stdout_is_tty,
    }
}

/// How a container is picked from the resolved candidates.
#[derive(Clone, Copy, PartialEq, Eq, Structural, Debug)]
pub enum Selection {
    /// Use the candidate at index zero.
    UseFirst,
    /// Put a numbered menu to the user.
    PromptMenu,
}

/// Applies the selection policy: `First` always takes the first candidate;
/// `Auto` takes a sole candidate, falls back to the first when the session
/// is not interactive, and otherwise asks; `Menu` always asks.
pub fn select_container(policy: Container, count: usize, is_tty: bool) -> (r: Selection)
    requires
        count >= 1,
    ensures
        r == match policy {
            Container::First => Selection::UseFirst,
            Container::Auto => if count == 1 || !is_tty {
                Selection::UseFirst
            } else {
                Selection::PromptMenu
            },
            Container::Menu => Selection::PromptMenu,
        },
{
    match policy {
        Container::First => Selection::UseFirst,
        Container::Auto => if count == 1 || !is_tty {
            Selection::UseFirst
        } else {
            Selection::PromptMenu
        },
        Container::Menu => Selection::PromptMenu,
    }
}

/// Reads a menu answer: the one-based index is accepted only when it names
/// one of the candidates.
pub fn choice_index(answer: usize, count: usize) -> (r: Option<usize>)
    ensures
        match r {
            Option::Some(i) => 1 <= answer <= count && i == answer - 1,
            Option::None => answer == 0 || answer > count,
        },
{
    if 1 <= answer && answer <= count {
        Option::Some(answer - 1)
    } else {
        Option::None
    }
}

/// The host argument's path, split into environment, stack and service:
/// one segment names the service, two name stack and service, three name
/// all three, and an empty path names nothing.
pub open spec fn split_path_spec(segs: Seq<Seq<char>>) -> Result<
    (Option<Seq<char>>, Option<Seq<char>>, Option<Seq<char>>),
    (),
> {
    if segs.len() == 0 {
        Result::Ok((Option::None, Option::None, Option::None))
    } else if segs.len() == 1 {
        if segs[0].len() == 0 {
            Result::Ok((Option::None, Option::None, Option::None))
        } else {
            Result::Ok((Option::None, Option::None, Option::Some(segs[0])))
        }
    } else if segs.len() == 2 {
        Result::Ok((Option::None, Option::Some(segs[0]), Option::Some(segs[1])))
    } else if segs.len() == 3 {
        Result::Ok((Option::Some(segs[0]), Option::Some(segs[1]), Option::Some(segs[2])))
    } else {
        Result::Err(())
    }
}

/// Splits the host argument's path segments, exactly as `split_path_spec`
/// describes; more than three segments are refused.
pub fn split_path(mut segments: Vec<String>) -> (r: Result<
    (Option<String>, Option<String>, Option<String>),
    (),
>)
    ensures
        ({
            let spec = split_path_spec(segments@.map_values(|s: String| s@));
            match r {
                Result::Ok((a, b, c)) => spec matches Ok(t) && t.0
                    == (match a {
                    Option::Some(x) => Option::Some(x@),
                    Option::None => Option::<Seq<char>>::None,
                }) && t.1
                    == (match b {
                    Option::Some(x) => Option::Some(x@),
                    Option::None => Option::<Seq<char>>::None,
                }) && t.2
                    == (match c {
                    Option::Some(x) => Option::Some(x@),
                    Option::None => Option::<Seq<char>>::None,
                }),
                Result::Err(_) => spec is Err,
            }
        }),
{
    let n = segments.len();
    if n == 0 {
        Result::Ok((Option::None, Option::None, Option::None))
    } else if n == 1 {
        let a = segments.remove(0);
        if a.unicode_len() == 0 {
            Result::Ok((Option::None, Option::None, Option::None))
        } else {
            Result::Ok((Option::None, Option::None, Option::Some(a)))
        }
    } else if n == 2 {
        let a = segments.remove(0);
        let b = segments.remove(0);
        Result::Ok((Option::None, Option::Some(a), Option::Some(b)))
    } else if n == 3 {
        let a = segments.remove(0);
        let b = segments.remove(0);
        let c = segments.remove(0);
        Result::Ok((Option::Some(a), Option::Some(b), Option::Some(c)))
    } else {
        Result::Err(())
    }
}

/// Reads the escape-character setting: `none` disables the escape protocol,
/// and a single ASCII character configures it; anything else is refused.
pub fn parse_escape_char(s: &str) -> (r: Result<Option<char>, ()>)
    ensures
        s@ == "none"@ ==> r == Result::<Option<char>, ()>::Ok(Option::None),
        s@ != "none"@ && s@.len() == 1 && ascii_char(s@[0]) ==> r == Result::<Option<char>, ()>::Ok(
            Option::Some(s@[0]),
        ),
        s@ != "none"@ && !(s@.len() == 1 && ascii_char(s@[0])) ==> r is Err,
{
    if str_eq(s, "none") {
        Result::Ok(Option::None)
    } else if s.unicode_len() == 1 {
        let c = s.get_char(0);
        if (c as u32) < 128 {
            Result::Ok(Option::Some(c))
        } else {
            Result::Err(())
        }
    } else {
        Result::Err(())
    }
}

/// A character the shell reads literally, outside any quoting.
pub open spec fn shell_safe_char(c: char) -> bool {
    ||| ('a' <= c && c <= 'z')
    ||| ('A' <= c && c <= 'Z')
    ||| ('0' <= c && c <= '9')
    ||| c == '-'
    ||| c == '_'
    ||| c == '='
    ||| c == '/'
    ||| c == ','
    ||| c == '.'
    ||| c == '+'
}

/// One character inside single quotes: a quote or a bang is closed out,
/// escaped and reopened; everything else stands as it is.
pub open spec fn shell_escape_char(c: char) -> Seq<char> {
    if c == '\'' || c == '!' {
        seq!['\'', '\\', c, '\'']
    } else {
        seq![c]
    }
}

/// The body of a single-quoted string, character by character.
pub open spec fn shell_quoted_body(s: Seq<char>) -> Seq<char>
    decreases s.len(),
{
    if s.len() == 0 {
        Seq::empty()
    } else {
        shell_escape_char(s[0]) + shell_quoted_body(s.drop_first())
    }
}

/// A string quoted for the shell: left alone when it is non-empty and every
/// character is safe, otherwise wrapped in single quotes with the quote
/// characters escaped.
pub open spec fn shell_quoted(s: Seq<char>) -> Seq<char> {
    if s.len() > 0 && (forall|i: int| 0 <= i < s.len() ==> shell_safe_char(#[trigger] s[i])) {
        s
    } else {
        seq!['\''] + shell_quoted_body(s) + seq!['\'']
    }
}

/// Relies on `shell_escape::unix::escape`: a non-empty string of safe
/// characters is returned unchanged, anything else single-quoted with
/// embedded quotes and bangs escaped — `shell_quoted` states it exactly.
#[verifier::external_body]
fn shell_escape_str(s: &str) -> (r: String)
    ensures
        r@ == shell_quoted(s@),
{
    shell_escape::unix::escape(std::borrow::Cow::from(s)).into_owned()
}

/// Quotes one word for the remote shell, exactly as `shell_quoted`
/// describes.
pub fn shell_quote(s: &str) -> (r: String)
    ensures
        r@ == shell_quoted(s@),
{
    shell_escape_str(s)
}

/// The environment assignments and exports sent ahead of the remote
/// command: each variable the send list includes contributes its
/// assignment and its export, in order.
pub open spec fn env_exports_spec(vars: Seq<(Seq<char>, Seq<char>)>, send: Seq<
    crate::pattern::PatternListEntry,
>) -> Seq<Seq<char>>
    decreases vars.len(),
{
    if vars.len() == 0 {
        Seq::empty()
    } else {
        let rest = env_exports_spec(vars.drop_first(), send);
        if list_match(send, vars[0].0) {
            seq![vars[0].0 + seq!['='] + vars[0].1, "export "@ + vars[0].0] + rest
        } else {
            rest
        }
    }
}

/// Builds the environment assignments for the variables the send list
/// includes, exactly as `env_exports_spec` describes.
pub fn send_env_exports(vars: &Vec<(String, String)>, send: &PatternList) -> (r: Vec<String>)
    ensures
        r@.map_values(|s: String| s@) == env_exports_spec(
            vars@.map_values(|p: (String, String)| (p.0@, p.1@)),
            send@,
        ),
{
    let ghost varsv = vars@.map_values(|p: (String, String)| (p.0@, p.1@));
    let mut r: Vec<String> = Vec::new();
    let mut i: usize = 0;
    proof {
        assert(varsv.skip(0) =~= varsv);
    }
    while i < vars.len()
        invariant
            i <= vars@.len(),
            varsv == vars@.map_values(|p: (String, String)| (p.0@, p.1@)),
            env_exports_spec(varsv, send@) == r@.map_values(|s: String| s@) + env_exports_spec(
                varsv.skip(i as int),
                send@,
            ),
        decreases vars@.len() - i,
    {
        let ghost racc = r@.map_values(|s: String| s@);
        proof {
            assert(varsv.skip(i as int)[0] == varsv[i as int]);
            assert(varsv.skip(i as int).drop_first() =~= varsv.skip(i as int + 1));
        }
        if send.matches(vars[i].0.as_str()) {
            let mut assign = vars[i].0.clone();
            push_char(&mut assign, '=');
            assign.append(vars[i].1.as_str());
            let export = concat_str("export ", vars[i].0.as_str());
            r.push(assign);
            r.push(export);
            proof {
                let tail = env_exports_spec(varsv.skip(i as int + 1), send@);
                assert(r@.map_values(|s: String| s@) =~~= racc + seq![
                    varsv[i as int].0 + seq!['='] + varsv[i as int].1,
                    "export "@ + varsv[i as int].0,
                ]);
                assert(racc + (seq![
                    varsv[i as int].0 + seq!['='] + varsv[i as int].1,
                    "export "@ + varsv[i as int].0,
                ] + tail) =~~= r@.map_values(|s: String| s@) + tail);
            }
        }
        i = i + 1;
    }
    proof {
        assert(env_exports_spec(varsv.skip(varsv.len() as int), send@)
            == Seq::<Seq<char>>::empty());
        assert(r@.map_values(|s: String| s@) + Seq::<Seq<char>>::empty() =~= r@.map_values(
            |s: String| s@,
        ));
    }
    r
}

/// The terminal sizing hint injected ahead of an interactive command.
pub fn stty_hint(cols: u16, rows: u16) -> (r: String)
    ensures
        r@ == "stty cols "@ + dec_str(cols as int) + " rows "@ + dec_str(rows as int),
{
    let mut r = concat_str("stty cols ", u16_to_string(cols).as_str());
    r.append(" rows ");
    let rs = u16_to_string(rows);
    r.append(rs.as_str());
    r
}

/// The remote command wrapped through `script` where available, so that an
/// interactive session keeps full terminal semantics.
pub open spec fn script_wrap_spec(rc: Seq<char>) -> Seq<char> {
    "([ -x /usr/bin/script ] && /usr/bin/script -q -c "@ + shell_quoted(rc)
        + " /dev/null || exec "@ + rc + ")"@
}

/// Wraps the remote command for an interactive session, exactly as
/// `script_wrap_spec` describes.
pub fn script_wrap(remote_command: &str) -> (r: String)
    ensures
        r@ == script_wrap_spec(remote_command@),
{
    let quoted = shell_quote(remote_command);
    let mut r = concat_str("([ -x /usr/bin/script ] && /usr/bin/script -q -c ", quoted.as_str());
    r.append(" /dev/null || exec ");
    r.append(remote_command);
    r.append(")");
    r
}

/// The command parts joined with `; `.
pub open spec fn join_semi_spec(parts: Seq<Seq<char>>) -> Seq<char>
    decreases parts.len(),
{
    if parts.len() == 0 {
        Seq::empty()
    } else if parts.len() == 1 {
        parts[0]
    } else {
        parts[0] + "; "@ + join_semi_spec(parts.drop_first())
    }
}

/// Joins the command parts with `; `, exactly as `join_semi_spec`
/// describes.
pub fn join_semicolon(parts: &Vec<String>) -> (r: String)
    ensures
        r@ == join_semi_spec(parts@.map_values(|s: String| s@)),
{
    let ghost pv = parts@.map_values(|s: String| s@);
    let mut r = String::new();
    let mut i: usize = 0;
    while i < parts.len()
        invariant
            i <= parts@.len(),
            pv == parts@.map_values(|s: String| s@),
            i == 0 ==> r@ == Seq::<char>::empty(),
            i > 0 ==> join_semi_spec(pv) == r@ + prefix_semi(pv.skip(i as int)),
        decreases parts@.len() - i,
    {
        let ghost racc = r@;
        proof {
            assert(pv.skip(i as int)[0] == pv[i as int]);
            assert(pv.skip(i as int).drop_first() =~= pv.skip(i as int + 1));
        }
        if i > 0 {
            r.append("; ");
        }
        r.append(parts[i].as_str());
        proof {
            if i == 0 {
                lemma_join_prefix(pv);
                assert(r@ =~= pv[0]);
            } else {
                assert(prefix_semi(pv.skip(i as int)) == "; "@ + pv[i as int] + prefix_semi(
                    pv.skip(i as int + 1),
                ));
                assert(racc + ("; "@ + pv[i as int] + prefix_semi(pv.skip(i as int + 1))) =~= r@
                    + prefix_semi(pv.skip(i as int + 1)));
            }
        }
        i = i + 1;
    }
    proof {
        if pv.len() == 0 {
        } else {
            assert(prefix_semi(pv.skip(pv.len() as int)) =~= Seq::<char>::empty());
            assert(r@ + Seq::<char>::empty() =~= r@);
        }
    }
    r
}

/// The tail of a join: each remaining part preceded by `; `.
pub open spec fn prefix_semi(parts: Seq<Seq<char>>) -> Seq<char>
    decreases parts.len(),
{
    if parts.len() == 0 {
        Seq::empty()
    } else {
        "; "@ + parts[0] + prefix_semi(parts.drop_first())
    }
}

/// A join is its first part followed by the `; `-prefixed rest.
proof fn lemma_join_prefix(parts: Seq<Seq<char>>)
    requires
        parts.len() >= 1,
    ensures
        join_semi_spec(parts) == parts[0] + prefix_semi(parts.drop_first()),
    decreases parts.len(),
{
    if parts.len() == 1 {
        assert(prefix_semi(parts.drop_first()) =~= Seq::<char>::empty());
        assert(parts[0] + Seq::<char>::empty() =~= parts[0]);
    } else {
        lemma_join_prefix(parts.drop_first());
        let tail = parts.drop_first();
        assert(prefix_semi(tail) == "; "@ + tail[0] + prefix_semi(tail.drop_first()));
        assert(parts[0] + "; "@ + (tail[0] + prefix_semi(tail.drop_first())) =~= parts[0] + ("; "@
            + tail[0] + prefix_semi(tail.drop_first())));
        assert(parts[0] + "; "@ + join_semi_spec(tail) =~= parts[0] + prefix_semi(tail));
    }
}

/// The argument vector handed to the exec endpoint: the shell runs the
/// joined command parts.
pub fn exec_argv(joined: String) -> (r: Vec<String>)
    ensures
        r@.len() == 3,
        r@[0]@ == "/bin/sh"@,
        r@[1]@ == "-c"@,
        r@[2]@ == joined@,
{
    let mut r: Vec<String> = Vec::new();
    r.push("/bin/sh".to_owned());
    r.push("-c".to_owned());
    r.push(joined);
    r
}

} // verus!
