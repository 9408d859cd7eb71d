//! Glob-style host patterns: `?` matches any one character, `*` any run of
//! characters; a pattern list combines positive and negative patterns.

use vstd::prelude::*;
use crate::text::chars_of;
use crate::text::string_from_chars;

verus! {

/// A pattern that could not be built.
#[derive(Clone, Copy, PartialEq, Eq, Structural, Debug)]
pub enum Error {
    EmptyPattern,
}

/// One element of a pattern.
#[derive(Clone, Copy, PartialEq, Eq, Structural, Debug)]
pub enum Token {
    /// `?`: any single character.
    Any,
    /// `*`: any run of characters, empty included.
    AnyRecurring,
    /// A literal character.
    Char(char),
}

/// Whether `tokens[ti..]` matches `chars[ci..]`: a literal must match the
/// next character, `?` consumes one character, `*` consumes any run; at the
/// end of the input only a trailing `*` (or nothing) may remain.
pub open spec fn tokens_match(tokens: Seq<Token>, chars: Seq<char>, ci: int, ti: int) -> bool
    decreases chars.len() - ci, tokens.len() - ti,
{
    if ci >= chars.len() {
        ti >= tokens.len() || (tokens[ti] == Token::AnyRecurring && ti + 1 >= tokens.len())
    } else if ti >= tokens.len() {
        false
    } else if ci < 0 || ti < 0 {
        false
    } else {
        match tokens[ti] {
            Token::Char(c) => chars[ci] == c && tokens_match(tokens, chars, ci + 1, ti + 1),
            Token::Any => tokens_match(tokens, chars, ci + 1, ti + 1),
            Token::AnyRecurring => tokens_match(tokens, chars, ci + 1, ti) || tokens_match(
                tokens,
                chars,
                ci,
                ti + 1,
            ),
        }
    }
}

/// A glob pattern over host names.
#[derive(Debug)]
pub struct Pattern {
    tokens: Vec<Token>,
}

impl Clone for Pattern {
    /// A clone holds the same tokens.
    fn clone(&self) -> (r: Self)
        ensures
            r@ == self@,
    {
        let mut tokens: Vec<Token> = Vec::new();
        let mut i: usize = 0;
        while i < self.tokens.len()
            invariant
                i <= self@.len(),
                tokens@ == self@.subrange(0, i as int),
            decreases self@.len() - i,
        {
            tokens.push(self.tokens[i]);
            proof {
                assert(tokens@ =~= self@.subrange(0, i as int + 1));
            }
            i = i + 1;
        }
        proof {
            assert(tokens@ =~= self@);
        }
        Pattern { tokens }
    }
}

impl View for Pattern {
    type V = Seq<Token>;

    closed spec fn view(&self) -> Seq<Token> {
        self.tokens@
    }
}

impl Pattern {
    /// Whether the pattern matches the whole string.
    pub fn matches(&self, string: &str) -> (b: bool)
        ensures
            b == tokens_match(self@, string@, 0, 0),
    {
        let chars = chars_of(string);
        self.do_match(&chars, 0, 0)
    }

    /// The recursive matcher behind `matches`.
    fn do_match(&self, chars: &Vec<char>, current_char: usize, current_token: usize) -> (b: bool)
        ensures
            b == tokens_match(self@, chars@, current_char as int, current_token as int),
        decreases chars@.len() - current_char, self@.len() - current_token,
    {
        if current_char >= chars.len() {
            return if current_token >= self.tokens.len() {
                true
            } else if matches!(self.tokens[current_token], Token::AnyRecurring) {
                current_token + 1 >= self.tokens.len()
            } else {
                false
            };
        }
        if current_token >= self.tokens.len() {
            return false;
        }
        match self.tokens[current_token] {
            Token::Char(c) => chars[current_char] == c && self.do_match(
                chars,
                current_char + 1,
                current_token + 1,
            ),
            Token::Any => self.do_match(chars, current_char + 1, current_token + 1),
            Token::AnyRecurring => {
                if self.do_match(chars, current_char + 1, current_token) {
                    true
                } else {
                    self.do_match(chars, current_char, current_token + 1)
                }
            },
        }
    }

    /// The pattern that matches every string.
    pub fn wildcard() -> (p: Pattern)
        ensures
            p@ == seq![Token::AnyRecurring],
    {
        let mut tokens: Vec<Token> = Vec::new();
        tokens.push(Token::AnyRecurring);
        proof {
            assert(tokens@ =~= seq![Token::AnyRecurring]);
        }
        Pattern { tokens }
    }

    /// Builds a pattern from its text, exactly as `parse_tokens` describes;
    /// only an empty text is refused.
    pub fn from_str(s: &str) -> (r: Result<Pattern, Error>)
        ensures
            s@.len() > 0 ==> (r matches Ok(p) && p@ == parse_tokens(s@)),
            s@.len() == 0 ==> (r matches Err(e) && e == Error::EmptyPattern),
    {
        let cs = chars_of(s);
        let mut ts: Vec<Token> = Vec::new();
        let mut i: usize = 0;
        while i < cs.len()
            invariant
                i <= cs@.len(),
                cs@ == s@,
                ts@ == parse_tokens(s@.subrange(0, i as int)),
            decreases cs@.len() - i,
        {
            let ghost prefix = s@.subrange(0, i as int);
            let c = cs[i];
            let token = if c == '?' {
                Token::Any
            } else if c == '*' {
                Token::AnyRecurring
            } else {
                Token::Char(c)
            };
            ts.push(token);
            let len = ts.len();
            if len > 1 && matches!(ts[len - 2], Token::AnyRecurring) && matches!(
                ts[len - 1],
                Token::Any,
            ) {
                ts.set(len - 1, Token::AnyRecurring);
                ts.set(len - 2, Token::Any);
            }
            proof {
                let next = s@.subrange(0, i as int + 1);
                assert(next.drop_last() =~= prefix);
                assert(next.last() == c);
                assert(ts@ =~= push_norm(parse_tokens(prefix), token_of(c)));
            }
            i = i + 1;
        }
        proof {
            assert(s@.subrange(0, s@.len() as int) =~= s@);
        }
        if ts.len() == 0 {
            Result::Err(Error::EmptyPattern)
        } else {
            Result::Ok(Pattern { tokens: ts })
        }
    }
}

/// The token one pattern character stands for.
pub open spec fn token_of(c: char) -> Token {
    if c == '?' {
        Token::Any
    } else if c == '*' {
        Token::AnyRecurring
    } else {
        Token::Char(c)
    }
}

/// Appends one token, swapping a trailing `* ?` into `? *` so that a `?`
/// after a `*` still consumes a character.
pub open spec fn push_norm(ts: Seq<Token>, t: Token) -> Seq<Token> {
    let ts2 = ts.push(t);
    if ts2.len() > 1 && ts2[ts2.len() - 2] == Token::AnyRecurring && t == Token::Any {
        ts2.update(ts2.len() - 2, Token::Any).update(ts2.len() - 1, Token::AnyRecurring)
    } else {
        ts2
    }
}

/// The tokens of a pattern text, one per character, normalised pairwise.
pub open spec fn parse_tokens(s: Seq<char>) -> Seq<Token>
    decreases s.len(),
{
    if s.len() == 0 {
        Seq::empty()
    } else {
        push_norm(parse_tokens(s.drop_last()), token_of(s.last()))
    }
}

impl Default for Pattern {
    /// The default pattern matches every string.
    fn default() -> (p: Pattern)
        ensures
            p@ == seq![Token::AnyRecurring],
    {
        Pattern::wildcard()
    }
}

/// A whitespace character, as trimming understands it.
pub open spec fn is_ws(c: char) -> bool {
    c == ' ' || c == '\t' || c == '\r' || c == '\n'
}

/// Runtime twin of `is_ws`.
fn is_ws_char(c: char) -> (b: bool)
    ensures
        b == is_ws(c),
{
    c == ' ' || c == '\t' || c == '\r' || c == '\n'
}

/// The string without its leading whitespace.
pub open spec fn trim_start(s: Seq<char>) -> Seq<char>
    decreases s.len(),
{
    if s.len() > 0 && is_ws(s[0]) {
        trim_start(s.drop_first())
    } else {
        s
    }
}

/// The string without its trailing whitespace.
pub open spec fn trim_end(s: Seq<char>) -> Seq<char>
    decreases s.len(),
{
    if s.len() > 0 && is_ws(s.last()) {
        trim_end(s.drop_last())
    } else {
        s
    }
}

/// The string without leading and trailing whitespace.
pub open spec fn trim(s: Seq<char>) -> Seq<char> {
    trim_end(trim_start(s))
}

/// Dropping an all-whitespace prefix is what `trim_start` does.
proof fn lemma_trim_start(s: Seq<char>, a: int)
    requires
        0 <= a <= s.len(),
        forall|j: int| 0 <= j < a ==> is_ws(#[trigger] s[j]),
        a == s.len() || !is_ws(s[a]),
    ensures
        trim_start(s) == s.skip(a),
    decreases a,
{
    if a == 0 {
        assert(s.skip(0) =~= s);
    } else {
        lemma_trim_start(s.drop_first(), a - 1);
        assert(s.drop_first().skip(a - 1) =~= s.skip(a));
    }
}

/// Dropping an all-whitespace suffix is what `trim_end` does.
proof fn lemma_trim_end(t: Seq<char>, b: int)
    requires
        0 <= b <= t.len(),
        forall|j: int| b <= j < t.len() ==> is_ws(#[trigger] t[j]),
        b == 0 || !is_ws(t[b - 1]),
    ensures
        trim_end(t) == t.subrange(0, b),
    decreases t.len(),
{
    if t.len() > 0 && is_ws(t.last()) {
        lemma_trim_end(t.drop_last(), b);
        assert(t.drop_last().subrange(0, b) =~= t.subrange(0, b));
    } else {
        assert(b == t.len());
        assert(t.subrange(0, b) =~= t);
    }
}

/// The trimmed string is the region between the scanned indices.
proof fn lemma_trim_indices(s: Seq<char>, a: int, b: int)
    requires
        0 <= a <= b <= s.len(),
        forall|j: int| 0 <= j < a ==> is_ws(#[trigger] s[j]),
        forall|j: int| b <= j < s.len() ==> is_ws(#[trigger] s[j]),
        a == s.len() || !is_ws(s[a]),
        b == a || !is_ws(s[b - 1]),
    ensures
        trim(s) == s.subrange(a, b),
{
    lemma_trim_start(s, a);
    let t0 = s.skip(a);
    assert forall|j: int| b - a <= j < t0.len() implies is_ws(#[trigger] t0[j]) by {
        assert(t0[j] == s[a + j]);
    }
    if b > a {
        assert(t0[b - a - 1] == s[b - 1]);
    }
    lemma_trim_end(t0, b - a);
    assert(t0.subrange(0, b - a) =~= s.subrange(a, b));
}

/// A character that separates pattern-list entries.
pub open spec fn is_sep(c: char) -> bool {
    c == ',' || c == ' '
}

/// One split entry, trimmed and read: a leading `!` marks exclusion, and
/// an entry empty after the trim — or a bare `!` — is refused.
pub open spec fn entry_spec(cur: Seq<char>) -> Result<(bool, Seq<Token>), Error> {
    let t = trim(cur);
    if t.len() == 0 {
        Result::Err(Error::EmptyPattern)
    } else if t[0] == '!' {
        if t.len() == 1 {
            Result::Err(Error::EmptyPattern)
        } else {
            Result::Ok((true, parse_tokens(t.drop_first())))
        }
    } else {
        Result::Ok((false, parse_tokens(t)))
    }
}

/// Reading a pattern-list text from position `i`, with the pending entry
/// text and the entries read so far: entries split at separators, the last
/// closed by the end of the text.
pub open spec fn parse_list(
    s: Seq<char>,
    i: int,
    cur: Seq<char>,
    acc: Seq<(bool, Seq<Token>)>,
) -> Result<Seq<(bool, Seq<Token>)>, Error>
    decreases s.len() - i,
{
    if i < 0 || i >= s.len() {
        match entry_spec(cur) {
            Result::Ok(e) => Result::Ok(acc.push(e)),
            Result::Err(x) => Result::Err(x),
        }
    } else if is_sep(s[i]) {
        match entry_spec(cur) {
            Result::Ok(e) => parse_list(s, i + 1, Seq::empty(), acc.push(e)),
            Result::Err(x) => Result::Err(x),
        }
    } else {
        parse_list(s, i + 1, cur.push(s[i]), acc)
    }
}

/// One entry of a pattern list: a match on a negative pattern excludes the
/// host rather than including it.
#[derive(Debug)]
pub enum PatternListEntry {
    Positive(Pattern),
    Negative(Pattern),
}

/// An entry as the specification sees it: whether it excludes, and its
/// pattern's tokens.
pub open spec fn entry_view(e: PatternListEntry) -> (bool, Seq<Token>) {
    match e {
        PatternListEntry::Positive(p) => (false, p@),
        PatternListEntry::Negative(p) => (true, p@),
    }
}

/// An ordered list of positive and negative patterns: the first pattern
/// that matches decides.
#[derive(Debug)]
pub struct PatternList {
    patterns: Vec<PatternListEntry>,
}

impl Default for PatternList {
    /// The default list includes every string.
    fn default() -> (r: PatternList)
        ensures
            r@.len() == 1,
            entry_view(r@[0]) == (false, seq![Token::AnyRecurring]),
    {
        let mut patterns: Vec<PatternListEntry> = Vec::new();
        patterns.push(PatternListEntry::Positive(Pattern::wildcard()));
        PatternList { patterns }
    }
}

impl View for PatternList {
    type V = Seq<PatternListEntry>;

    closed spec fn view(&self) -> Seq<PatternListEntry> {
        self.patterns@
    }
}

/// The decision of a pattern list on a string: the first entry whose
/// pattern matches decides — positively or negatively — and a list with no
/// matching entry excludes.
pub open spec fn list_match(entries: Seq<PatternListEntry>, s: Seq<char>) -> bool
    decreases entries.len(),
{
    if entries.len() == 0 {
        false
    } else {
        match entries[0] {
            PatternListEntry::Positive(p) => if tokens_match(p@, s, 0, 0) {
                true
            } else {
                list_match(entries.drop_first(), s)
            },
            PatternListEntry::Negative(p) => if tokens_match(p@, s, 0, 0) {
                false
            } else {
                list_match(entries.drop_first(), s)
            },
        }
    }
}

impl PatternList {
    /// Whether the list includes the string, exactly as `list_match`
    /// describes.
    pub fn matches(&self, string: &str) -> (b: bool)
        ensures
            b == list_match(self@, string@),
    {
        let mut i: usize = 0;
        proof {
            assert(self@.skip(0) =~= self@);
        }
        while i < self.patterns.len()
            invariant
                i <= self@.len(),
                list_match(self@, string@) == list_match(self@.skip(i as int), string@),
            decreases self@.len() - i,
        {
            proof {
                assert(self@.skip(i as int)[0] == self@[i as int]);
                assert(self@.skip(i as int).drop_first() =~= self@.skip(i as int + 1));
            }
            match &self.patterns[i] {
                PatternListEntry::Positive(p) => {
                    if p.matches(string) {
                        return true;
                    }
                },
                PatternListEntry::Negative(p) => {
                    if p.matches(string) {
                        return false;
                    }
                },
            }
            i = i + 1;
        }
        false
    }

    /// Builds a pattern list from its text, exactly as `parse_list`
    /// describes: entries split at commas and spaces, trimmed, a leading
    /// `!` marking a negative pattern; an empty entry is refused.
    pub fn from_str(s: &str) -> (r: Result<PatternList, Error>)
        ensures
            match parse_list(s@, 0, Seq::empty(), Seq::empty()) {
                Result::Ok(es) => (r matches Ok(pl) && pl@.map_values(|e: PatternListEntry| entry_view(e)) == es),
                Result::Err(x) => (r matches Err(e) && e == x),
            },
    {
        let cs = chars_of(s);
        let mut cur: Vec<char> = Vec::new();
        let mut patterns: Vec<PatternListEntry> = Vec::new();
        let mut i: usize = 0;
        proof {
            assert(patterns@.map_values(|e: PatternListEntry| entry_view(e)) =~= Seq::<
                (bool, Seq<Token>),
            >::empty());
        }
        while i < cs.len()
            invariant
                i <= cs@.len(),
                cs@ == s@,
                parse_list(s@, 0, Seq::empty(), Seq::empty()) == parse_list(
                    s@,
                    i as int,
                    cur@,
                    patterns@.map_values(|e: PatternListEntry| entry_view(e)),
                ),
            decreases cs@.len() - i,
        {
            let ghost acc = patterns@.map_values(|e: PatternListEntry| entry_view(e));
            let c = cs[i];
            if c == ',' || c == ' ' {
                match Self::finalize_entry(&cur) {
                    Result::Ok(e) => {
                        let ghost ev = entry_view(e);
                        patterns.push(e);
                        cur = Vec::new();
                        proof {
                            assert(patterns@.map_values(|e: PatternListEntry| entry_view(e)) =~~=
                                acc.push(ev));
                        }
                    },
                    Result::Err(x) => {
                        return Result::Err(x);
                    },
                }
            } else {
                cur.push(c);
            }
            i = i + 1;
        }
        match Self::finalize_entry(&cur) {
            Result::Ok(e) => {
                let ghost acc = patterns@.map_values(|ent: PatternListEntry| entry_view(ent));
                let ghost ev = entry_view(e);
                patterns.push(e);
                proof {
                    assert(patterns@.map_values(|ent: PatternListEntry| entry_view(ent)) =~~=
                        acc.push(ev));
                }
                Result::Ok(PatternList { patterns })
            },
            Result::Err(x) => Result::Err(x),
        }
    }

    /// One split entry, trimmed and read as a pattern, as `entry_spec`
    /// describes.
    fn finalize_entry(cur: &Vec<char>) -> (r: Result<PatternListEntry, Error>)
        ensures
            match entry_spec(cur@) {
                Result::Ok(ev) => (r matches Ok(e) && entry_view(e) == ev),
                Result::Err(x) => (r matches Err(e) && e == x),
            },
    {
        let mut a: usize = 0;
        let mut b: usize = cur.len();
        while a < b && is_ws_char(cur[a])
            invariant
                a <= b <= cur@.len(),
                forall|j: int| 0 <= j < a ==> is_ws(#[trigger] cur@[j]),
                b == cur@.len(),
            decreases b - a,
        {
            a = a + 1;
        }
        while b > a && is_ws_char(cur[b - 1])
            invariant
                a <= b <= cur@.len(),
                forall|j: int| 0 <= j < a ==> is_ws(#[trigger] cur@[j]),
                forall|j: int| b <= j < cur@.len() ==> is_ws(#[trigger] cur@[j]),
                a == cur@.len() || !is_ws(cur@[a as int]),
            decreases b,
        {
            b = b - 1;
        }
        proof {
            lemma_trim_indices(cur@, a as int, b as int);
        }
        let ghost t = trim(cur@);
        if a == b {
            return Result::Err(Error::EmptyPattern);
        }
        if cur[a] == '!' {
            if a + 1 == b {
                return Result::Err(Error::EmptyPattern);
            }
            let mut body: Vec<char> = Vec::new();
            let mut j: usize = a + 1;
            while j < b
                invariant
                    a + 1 <= j <= b <= cur@.len(),
                    body@ == cur@.subrange(a as int + 1, j as int),
                decreases b - j,
            {
                body.push(cur[j]);
                proof {
                    assert(body@ =~= cur@.subrange(a as int + 1, j as int + 1));
                }
                j = j + 1;
            }
            proof {
                assert(cur@.subrange(a as int + 1, b as int) =~= t.drop_first());
            }
            let text = string_from_chars(&body);
            match Pattern::from_str(text.as_str()) {
                Result::Ok(p) => Result::Ok(PatternListEntry::Negative(p)),
                Result::Err(e) => Result::Err(e),
            }
        } else {
            let mut body: Vec<char> = Vec::new();
            let mut j: usize = a;
            while j < b
                invariant
                    a <= j <= b <= cur@.len(),
                    body@ == cur@.subrange(a as int, j as int),
                decreases b - j,
            {
                body.push(cur[j]);
                proof {
                    assert(body@ =~= cur@.subrange(a as int, j as int + 1));
                }
                j = j + 1;
            }
            let text = string_from_chars(&body);
            match Pattern::from_str(text.as_str()) {
                Result::Ok(p) => Result::Ok(PatternListEntry::Positive(p)),
                Result::Err(e) => Result::Err(e),
            }
        }
    }

    /// The list holding exactly these patterns, all positive, in order.
    pub fn from_patterns(source: Vec<Pattern>) -> (r: PatternList)
        ensures
            r@.len() == source@.len(),
            forall|i: int|
                0 <= i < source@.len() ==> ((#[trigger] r@[i]) matches PatternListEntry::Positive(p)
                    && p@ == source@[i]@),
    {
        let mut patterns: Vec<PatternListEntry> = Vec::new();
        let mut i: usize = 0;
        while i < source.len()
            invariant
                i <= source@.len(),
                patterns@.len() == i,
                forall|j: int|
                    0 <= j < i ==> ((#[trigger] patterns@[j]) matches PatternListEntry::Positive(p)
                        && p@ == source@[j]@),
            decreases source@.len() - i,
        {
            let p = source[i].clone();
            patterns.push(PatternListEntry::Positive(p));
            i = i + 1;
        }
        PatternList { patterns }
    }
}

} // verus!
