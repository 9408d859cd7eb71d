//! Classification of raw terminal input into session-control events.
//!
//! The scanner inspects outgoing keystrokes for an SSH-like escape protocol:
//! a configured escape character typed as the first byte after a newline,
//! followed by a command character, triggers local session control instead of
//! being forwarded.  A separate layer skips over ANSI control sequences
//! (`ESC [ [0-9;]* final-byte`) so that an escape character embedded inside
//! one is never misread.

use vstd::prelude::*;

verus! {

/// A session-control event recognised in the local input stream, or
/// `NoEscape` when the scanner reached the end of the buffer without one.
#[derive(Clone, Copy, PartialEq, Eq, Structural, Debug)]
pub enum Escape {
    DecreaseVerbosity,
    Help,
    IncreaseVerbosity,
    Invalid,
    Itself,
    Literal,
    Suspend,
    Terminate,
    NoEscape,
}

/// Escape-layer state: the escape character is recognised only as the first
/// byte immediately following a newline.
#[derive(Clone, Copy, PartialEq, Eq, Structural, Debug)]
pub enum State {
    AwaitingNewline,
    AwaitingEscape,
    AwaitingChar,
}

/// ANSI-skip-layer state, used only to pass over terminal control sequences.
#[derive(Clone, Copy, PartialEq, Eq, Structural, Debug)]
pub enum AnsiState {
    AwaitingEscape,
    AwaitingOpen,
    AwaitingChar,
}

/// One step of the escape layer on byte `b`, with `cb` the configured escape
/// byte: the new states and the event produced, if any.
pub open spec fn esc_step(st: State, an: AnsiState, cb: u8, b: u8) -> (State, AnsiState, Option<
    Escape,
>) {
    match st {
        State::AwaitingNewline => (
            if b == 13 {
                State::AwaitingEscape
            } else {
                State::AwaitingNewline
            },
            an,
            Option::None,
        ),
        State::AwaitingEscape => if b == cb {
            (State::AwaitingChar, an, Option::Some(Escape::Itself))
        } else {
            (State::AwaitingNewline, an, Option::None)
        },
        State::AwaitingChar => if b == 126 {
            (State::AwaitingNewline, an, Option::Some(Escape::Literal))
        } else {
            (State::AwaitingEscape, an, Option::Some(classify(b)))
        },
    }
}

/// The command character read after a recognised escape character.
pub open spec fn classify(b: u8) -> Escape {
    if b == 86 {
        Escape::DecreaseVerbosity
    } else if b == 63 {
        Escape::Help
    } else if b == 118 {
        Escape::IncreaseVerbosity
    } else if b == 126 {
        Escape::Literal
    } else if b == 26 {
        Escape::Suspend
    } else if b == 46 {
        Escape::Terminate
    } else {
        Escape::Invalid
    }
}

/// One step of the full scanner on byte `b`: the ANSI layer is consulted
/// first and, while inside a control sequence, consumes the byte as ordinary
/// data; otherwise the escape layer runs.
pub open spec fn step(st: State, an: AnsiState, cb: u8, b: u8) -> (State, AnsiState, Option<
    Escape,
>) {
    match an {
        AnsiState::AwaitingEscape => if b == 27 {
            (st, AnsiState::AwaitingOpen, Option::None)
        } else {
            esc_step(st, AnsiState::AwaitingEscape, cb, b)
        },
        AnsiState::AwaitingOpen => if b == 91 {
            (st, AnsiState::AwaitingChar, Option::None)
        } else {
            esc_step(st, AnsiState::AwaitingEscape, cb, b)
        },
        AnsiState::AwaitingChar => if (48 <= b && b <= 57) || b == 59 {
            (st, AnsiState::AwaitingChar, Option::None)
        } else if 64 <= b && b <= 126 {
            (st, AnsiState::AwaitingEscape, Option::None)
        } else {
            esc_step(st, AnsiState::AwaitingEscape, cb, b)
        },
    }
}

/// The result of scanning forward from one cursor position: the scanner
/// state at the moment the scan stops, the cursor just past the last
/// consumed byte, and the event that stopped the scan.
pub struct ScanOut {
    pub state: State,
    pub ansi: AnsiState,
    pub pos: int,
    pub event: Escape,
}

/// Scanning `buf[pos..max]` byte by byte: stops with the first classified
/// event, or with `Escape::NoEscape` at the end of the valid region.
pub open spec fn scan_from(
    st: State,
    an: AnsiState,
    cb: u8,
    buf: Seq<u8>,
    max: int,
    pos: int,
) -> ScanOut
    decreases max - pos,
{
    if pos < 0 || pos >= max || max > buf.len() {
        ScanOut { state: st, ansi: an, pos: pos, event: Escape::NoEscape }
    } else {
        let r = step(st, an, cb, buf[pos]);
        match r.2 {
            Option::Some(e) => ScanOut { state: r.0, ansi: r.1, pos: pos + 1, event: e },
            Option::None => scan_from(r.0, r.1, cb, buf, max, pos + 1),
        }
    }
}

/// Whether the configured escape character is a plain ASCII byte; the
/// protocol recognises only such characters.
pub open spec fn ascii_char(c: char) -> bool {
    (c as u32) < 128
}

/// What one call to `next_escape` does, for a scanner that may or may not
/// have an escape character configured: with none, the scanner is a no-op
/// that reports `NoEscape` at the end of the valid region.
pub open spec fn scan_model(
    cfg: Option<u8>,
    st: State,
    an: AnsiState,
    buf: Seq<u8>,
    max: int,
    pos: int,
) -> ScanOut {
    match cfg {
        Option::Some(cb) => scan_from(st, an, cb, buf, max, pos),
        Option::None => ScanOut { state: st, ansi: an, pos: max, event: Escape::NoEscape },
    }
}

/// The interface the input reader drives: classify the next segment of the
/// read buffer, expose the cursor, and reset it for the next read.
pub trait Scanner: Sized {
    /// The configured escape byte, or `None` for the no-op scanner.
    spec fn cfg(&self) -> Option<u8>;

    /// The configured escape character.
    spec fn cfg_char(&self) -> char;

    /// Escape-layer state.
    spec fn scan_state(&self) -> State;

    /// ANSI-layer state.
    spec fn ansi(&self) -> AnsiState;

    /// One past the last byte consumed in this read.
    spec fn cursor(&self) -> int;

    /// The scanner's configuration is one the protocol recognises.
    spec fn wf(&self) -> bool;

    /// Classifies input from the cursor on, exactly as `scan_model`
    /// describes, and leaves the cursor just past the consumed bytes.
    fn next_escape(&mut self, buffer: &[u8; 4096], max: usize) -> (e: Escape)
        requires
            max <= 4096,
            old(self).wf(),
        ensures
            ({
                let o = scan_model(
                    old(self).cfg(),
                    old(self).scan_state(),
                    old(self).ansi(),
                    buffer@,
                    max as int,
                    old(self).cursor(),
                );
                &&& final(self).scan_state() == o.state
                &&& final(self).ansi() == o.ansi
                &&& final(self).cursor() == o.pos
                &&& e == o.event
            }),
            final(self).cfg() == old(self).cfg(),
            final(self).cfg_char() == old(self).cfg_char(),
            final(self).wf(),
    ;

    /// Starts a new read: the cursor returns to zero, the states persist.
    fn reset(&mut self)
        requires
            old(self).wf(),
        ensures
            final(self).cursor() == 0,
            final(self).cfg() == old(self).cfg(),
            final(self).cfg_char() == old(self).cfg_char(),
            final(self).scan_state() == old(self).scan_state(),
            final(self).ansi() == old(self).ansi(),
            final(self).wf(),
    ;

    /// The cursor as a machine integer.
    fn pos(&self) -> (p: usize)
        ensures
            p == self.cursor(),
    ;

    /// The configured escape character; only a configured scanner has one.
    fn char(&self) -> (c: char)
        requires
            self.wf(),
            self.cfg() is Some,
        ensures
            c == self.cfg_char(),
    ;
}

/// The scanner used when no escape character is configured: it consumes
/// every read whole and never reports an event.
pub struct NullScanner {
    pub pos: usize,
}

impl NullScanner {
    pub fn new() -> (s: NullScanner)
        ensures
            s.pos == 0,
    {
        NullScanner { pos: 0 }
    }
}

impl Scanner for NullScanner {
    open spec fn cfg(&self) -> Option<u8> {
        Option::None
    }

    open spec fn cfg_char(&self) -> char {
        ' '
    }

    open spec fn scan_state(&self) -> State {
        State::AwaitingEscape
    }

    open spec fn ansi(&self) -> AnsiState {
        AnsiState::AwaitingEscape
    }

    open spec fn cursor(&self) -> int {
        self.pos as int
    }

    open spec fn wf(&self) -> bool {
        true
    }

    fn next_escape(&mut self, buffer: &[u8; 4096], max: usize) -> (e: Escape) {
        self.pos = max;
        Escape::NoEscape
    }

    fn reset(&mut self) {
        self.pos = 0;
    }

    fn pos(&self) -> (p: usize) {
        self.pos
    }

    fn char(&self) -> (c: char) {
        vstd::pervasive::unreached()
    }
}

/// A scanner configured with an escape character.  The cursor `pos`
/// persists within one read and is reset at the start of the next.
pub struct CharScanner {
    pub c: char,
    pub pos: usize,
    pub state: State,
    pub ansi_state: AnsiState,
}

impl CharScanner {
    /// A fresh scanner: the very first byte of the session counts as the
    /// first byte after a newline.
    pub fn new(c: char) -> (s: CharScanner)
        requires
            ascii_char(c),
        ensures
            s.c == c,
            s.pos == 0,
            s.state == State::AwaitingEscape,
            s.ansi_state == AnsiState::AwaitingEscape,
    {
        CharScanner { c, pos: 0, state: State::AwaitingEscape, ansi_state: AnsiState::AwaitingEscape }
    }

    /// Consumes one byte and applies `step` to the scanner's two states.
    fn step_byte(&mut self, b: u8) -> (r: Option<Escape>)
        requires
            old(self).pos < usize::MAX,
            ascii_char(old(self).c),
        ensures
            ({
                let s = step(old(self).state, old(self).ansi_state, old(self).c as u8, b);
                &&& final(self).state == s.0
                &&& final(self).ansi_state == s.1
                &&& r == s.2
            }),
            final(self).pos == old(self).pos + 1,
            final(self).c == old(self).c,
    {
        match self.ansi_state {
            AnsiState::AwaitingEscape => {
                if b == 27 {
                    self.ansi_state = AnsiState::AwaitingOpen;
                    self.pos += 1;
                    return Option::None;
                }
            },
            AnsiState::AwaitingOpen => {
                if b == 91 {
                    self.ansi_state = AnsiState::AwaitingChar;
                    self.pos += 1;
                    return Option::None;
                }
                self.ansi_state = AnsiState::AwaitingEscape;
            },
            AnsiState::AwaitingChar => {
                if (48 <= b && b <= 57) || b == 59 {
                    self.pos += 1;
                    return Option::None;
                }
                self.ansi_state = AnsiState::AwaitingEscape;
                if 64 <= b && b <= 126 {
                    self.pos += 1;
                    return Option::None;
                }
            },
        }
        match self.state {
            State::AwaitingNewline => {
                if b == 13 {
                    self.state = State::AwaitingEscape;
                }
                self.pos += 1;
                Option::None
            },
            State::AwaitingEscape => {
                self.pos += 1;
                if b == self.c as u8 {
                    self.state = State::AwaitingChar;
                    Option::Some(Escape::Itself)
                } else {
                    self.state = State::AwaitingNewline;
                    Option::None
                }
            },
            State::AwaitingChar => {
                self.state = State::AwaitingEscape;
                let e = if b == 86 {
                    Escape::DecreaseVerbosity
                } else if b == 63 {
                    Escape::Help
                } else if b == 118 {
                    Escape::IncreaseVerbosity
                } else if b == 126 {
                    self.state = State::AwaitingNewline;
                    Escape::Literal
                } else if b == 26 {
                    Escape::Suspend
                } else if b == 46 {
                    Escape::Terminate
                } else {
                    Escape::Invalid
                };
                self.pos += 1;
                Option::Some(e)
            },
        }
    }

}

impl Scanner for CharScanner {
    open spec fn cfg(&self) -> Option<u8> {
        Option::Some(self.c as u8)
    }

    open spec fn cfg_char(&self) -> char {
        self.c
    }

    open spec fn scan_state(&self) -> State {
        self.state
    }

    open spec fn ansi(&self) -> AnsiState {
        self.ansi_state
    }

    open spec fn cursor(&self) -> int {
        self.pos as int
    }

    open spec fn wf(&self) -> bool {
        ascii_char(self.c)
    }

    #[verifier::loop_isolation(false)]
    fn next_escape(&mut self, buffer: &[u8; 4096], max: usize) -> (e: Escape) {
        let ghost orig = *self;
        let ghost cb = self.c as u8;
        proof {
            assert(buffer@.len() == 4096);
        }
        while self.pos < max
            invariant
                buffer@.len() == 4096,
                max <= 4096,
                self.c == orig.c,
                ascii_char(orig.c),
                cb == orig.c as u8,
                scan_from(self.state, self.ansi_state, cb, buffer@, max as int, self.pos as int)
                    == scan_from(orig.state, orig.ansi_state, cb, buffer@, max as int, orig.pos as int),
            decreases max - self.pos,
        {
            let ghost pre = *self;
            let b = buffer[self.pos];
            match self.step_byte(b) {
                Option::Some(e) => {
                    proof {
                        assert(scan_from(pre.state, pre.ansi_state, cb, buffer@, max as int, pre.pos as int)
                            == ScanOut {
                                state: self.state,
                                ansi: self.ansi_state,
                                pos: self.pos as int,
                                event: e,
                            });
                    }
                    return e;
                },
                Option::None => {
                    proof {
                        assert(scan_from(pre.state, pre.ansi_state, cb, buffer@, max as int, pre.pos as int)
                            == scan_from(self.state, self.ansi_state, cb, buffer@, max as int, self.pos as int));
                    }
                },
            }
        }
        Escape::NoEscape
    }

    fn reset(&mut self) {
        self.pos = 0;
    }

    fn pos(&self) -> (p: usize) {
        self.pos
    }

    fn char(&self) -> (c: char) {
        self.c
    }
}

/// One scanner of either kind, as the session configuration selects.
pub enum SessionScanner {
    Null(NullScanner),
    Char(CharScanner),
}

impl Scanner for SessionScanner {
    open spec fn cfg(&self) -> Option<u8> {
        match self {
            SessionScanner::Null(s) => s.cfg(),
            SessionScanner::Char(s) => s.cfg(),
        }
    }

    open spec fn cfg_char(&self) -> char {
        match self {
            SessionScanner::Null(s) => s.cfg_char(),
            SessionScanner::Char(s) => s.cfg_char(),
        }
    }

    open spec fn scan_state(&self) -> State {
        match self {
            SessionScanner::Null(s) => s.scan_state(),
            SessionScanner::Char(s) => s.scan_state(),
        }
    }

    open spec fn ansi(&self) -> AnsiState {
        match self {
            SessionScanner::Null(s) => s.ansi(),
            SessionScanner::Char(s) => s.ansi(),
        }
    }

    open spec fn cursor(&self) -> int {
        match self {
            SessionScanner::Null(s) => s.cursor(),
            SessionScanner::Char(s) => s.cursor(),
        }
    }

    open spec fn wf(&self) -> bool {
        match self {
            SessionScanner::Null(s) => s.wf(),
            SessionScanner::Char(s) => s.wf(),
        }
    }

    fn next_escape(&mut self, buffer: &[u8; 4096], max: usize) -> (e: Escape) {
        match self {
            SessionScanner::Null(s) => s.next_escape(buffer, max),
            SessionScanner::Char(s) => s.next_escape(buffer, max),
        }
    }

    fn reset(&mut self) {
        match self {
            SessionScanner::Null(s) => s.reset(),
            SessionScanner::Char(s) => s.reset(),
        }
    }

    fn pos(&self) -> (p: usize) {
        match self {
            SessionScanner::Null(s) => s.pos(),
            SessionScanner::Char(s) => s.pos(),
        }
    }

    fn char(&self) -> (c: char) {
        match self {
            SessionScanner::Null(s) => s.char(),
            SessionScanner::Char(s) => s.char(),
        }
    }
}

/// The scanner for a session: a `CharScanner` when an escape character is
/// configured, the no-op `NullScanner` otherwise.
pub fn scanner(escape_char: Option<char>) -> (s: SessionScanner)
    requires
        escape_char matches Some(c) ==> ascii_char(c),
    ensures
        s.wf(),
        s.cursor() == 0,
        s.scan_state() == State::AwaitingEscape,
        s.ansi() == AnsiState::AwaitingEscape,
        match escape_char {
            Some(c) => s.cfg() == Option::Some(c as u8) && s.cfg_char() == c,
            None => s.cfg() is None,
        },
{
    match escape_char {
        Some(c) => SessionScanner::Char(CharScanner::new(c)),
        None => SessionScanner::Null(NullScanner::new()),
    }
}

/// A buffer region holding no escape byte is consumed whole, with no event:
/// a scan that does not start in the middle of an escape sequence reports
/// `NoEscape` exactly at the end of the valid region.
pub proof fn lemma_no_escape_byte_scans_all(
    st: State,
    an: AnsiState,
    cb: u8,
    buf: Seq<u8>,
    max: int,
    pos: int,
)
    requires
        0 <= pos <= max <= buf.len(),
        st != State::AwaitingChar,
        forall|i: int| pos <= i < max ==> buf[i] != cb,
    ensures
        scan_from(st, an, cb, buf, max, pos).event == Escape::NoEscape,
        scan_from(st, an, cb, buf, max, pos).pos == max,
        scan_from(st, an, cb, buf, max, pos).state != State::AwaitingChar,
    decreases max - pos,
{
    if pos < max {
        let r = step(st, an, cb, buf[pos]);
        lemma_no_escape_byte_scans_all(r.0, r.1, cb, buf, max, pos + 1);
    }
}

/// `Terminate` needs the escape prefix: in a region that holds no escape
/// byte, a scan that does not start in the middle of an escape sequence
/// never classifies anything — in particular no bare `.` — as `Terminate`.
pub proof fn lemma_no_terminate_without_escape(
    st: State,
    an: AnsiState,
    cb: u8,
    buf: Seq<u8>,
    max: int,
    pos: int,
)
    requires
        0 <= pos <= max <= buf.len(),
        st != State::AwaitingChar,
        forall|i: int| pos <= i < max ==> buf[i] != cb,
    ensures
        scan_from(st, an, cb, buf, max, pos).event != Escape::Terminate,
{
    lemma_no_escape_byte_scans_all(st, an, cb, buf, max, pos);
}

/// A newline, the escape character, and `.` in sequence always classify as
/// `Itself` and then `Terminate`, the cursor stopping right after the `.`:
/// the first scan consumes the newline and the escape byte, the second
/// consumes the command byte.
pub proof fn lemma_newline_escape_dot_terminates(
    cb: u8,
    buf: Seq<u8>,
    max: int,
    p: int,
)
    requires
        0 <= p,
        p + 3 <= max <= buf.len(),
        cb != 27,
        cb != 13,
        buf[p] == 13,
        buf[p + 1] == cb,
        buf[p + 2] == 46,
    ensures
        scan_from(State::AwaitingNewline, AnsiState::AwaitingEscape, cb, buf, max, p) == (ScanOut {
            state: State::AwaitingChar,
            ansi: AnsiState::AwaitingEscape,
            pos: p + 2,
            event: Escape::Itself,
        }),
        scan_from(State::AwaitingChar, AnsiState::AwaitingEscape, cb, buf, max, p + 2) == (ScanOut {
            state: State::AwaitingEscape,
            ansi: AnsiState::AwaitingEscape,
            pos: p + 3,
            event: Escape::Terminate,
        }),
{
    assert(scan_from(State::AwaitingNewline, AnsiState::AwaitingEscape, cb, buf, max, p)
        == scan_from(State::AwaitingEscape, AnsiState::AwaitingEscape, cb, buf, max, p + 1));
}

/// In input free of the ANSI introducer byte, an escape character is
/// classified `Itself` only when it stands immediately after a newline:
/// when a scan begun mid-line stops with `Itself`, the byte before the
/// escape byte was a carriage return consumed in this same scan.
pub proof fn lemma_itself_only_after_newline(
    cb: u8,
    buf: Seq<u8>,
    max: int,
    pos: int,
)
    requires
        0 <= pos <= max <= buf.len(),
        forall|i: int| pos <= i < max ==> buf[i] != 27,
    ensures
        ({
            let o = scan_from(State::AwaitingNewline, AnsiState::AwaitingEscape, cb, buf, max, pos);
            o.event == Escape::Itself ==> {
                &&& pos + 2 <= o.pos <= max
                &&& buf[o.pos - 1] == cb
                &&& buf[o.pos - 2] == 13
            }
        }),
    decreases max - pos,
{
    if pos < max {
        let b = buf[pos];
        let s = step(State::AwaitingNewline, AnsiState::AwaitingEscape, cb, b);
        if s.2 is None {
            if s.0 == State::AwaitingNewline {
                lemma_itself_only_after_newline(cb, buf, max, pos + 1);
            } else {
                lemma_itself_from_armed(cb, buf, max, pos + 1);
            }
        }
    }
}

/// Helper for the newline law, covering the armed state just after a
/// newline: a scan from there stops with `Itself` either at once — on the
/// escape byte standing first — or later, with a newline before it.
proof fn lemma_itself_from_armed(
    cb: u8,
    buf: Seq<u8>,
    max: int,
    pos: int,
)
    requires
        0 <= pos <= max <= buf.len(),
        forall|i: int| pos <= i < max ==> buf[i] != 27,
    ensures
        ({
            let o = scan_from(State::AwaitingEscape, AnsiState::AwaitingEscape, cb, buf, max, pos);
            o.event == Escape::Itself ==> {
                ||| (o.pos == pos + 1 && buf[pos] == cb)
                ||| (pos + 2 <= o.pos <= max && buf[o.pos - 1] == cb && buf[o.pos - 2] == 13)
            }
        }),
    decreases max - pos,
{
    if pos < max {
        let b = buf[pos];
        let s = step(State::AwaitingEscape, AnsiState::AwaitingEscape, cb, b);
        if s.2 is None {
            lemma_itself_only_after_newline(cb, buf, max, pos + 1);
        }
    }
}

/// A parameter byte of a control sequence: a decimal digit or `;`.
pub open spec fn is_csi_param(b: u8) -> bool {
    (48 <= b && b <= 57) || b == 59
}

/// A complete ANSI control sequence filling `buf[s..e]`:
/// `ESC [ [0-9;]* final-byte` with the final byte in `@ ..= ~`.
pub open spec fn is_ansi_seq(buf: Seq<u8>, s: int, e: int) -> bool {
    &&& 0 <= s
    &&& s + 2 < e <= buf.len()
    &&& buf[s] == 27
    &&& buf[s + 1] == 91
    &&& forall|i: int| s + 2 <= i < e - 1 ==> is_csi_param(buf[i])
    &&& 64 <= buf[e - 1] && buf[e - 1] <= 126
}

/// Helper: from inside the parameter bytes of a control sequence, the scan
/// passes over the rest of the sequence without any event and with the
/// escape layer untouched.
proof fn lemma_ansi_params_skipped(
    st: State,
    cb: u8,
    buf: Seq<u8>,
    max: int,
    pos: int,
    e: int,
)
    requires
        0 <= pos <= e - 1,
        e <= max <= buf.len(),
        forall|i: int| pos <= i < e - 1 ==> is_csi_param(buf[i]),
        64 <= buf[e - 1] && buf[e - 1] <= 126,
    ensures
        scan_from(st, AnsiState::AwaitingChar, cb, buf, max, pos)
            == scan_from(st, AnsiState::AwaitingEscape, cb, buf, max, e),
    decreases e - pos,
{
    if pos < e - 1 {
        lemma_ansi_params_skipped(st, cb, buf, max, pos + 1, e);
    }
}

/// Bytes inside a recognised ANSI control sequence are never classified as
/// an escape event, even if one of them equals the configured escape byte:
/// the scan consumes the whole sequence as ordinary data, both layers ending
/// where they began.
pub proof fn lemma_ansi_sequence_never_escapes(
    st: State,
    cb: u8,
    buf: Seq<u8>,
    max: int,
    s: int,
    e: int,
)
    requires
        is_ansi_seq(buf, s, e),
        e <= max <= buf.len(),
    ensures
        scan_from(st, AnsiState::AwaitingEscape, cb, buf, max, s)
            == scan_from(st, AnsiState::AwaitingEscape, cb, buf, max, e),
        scan_from(st, AnsiState::AwaitingEscape, cb, buf, e, s) == (ScanOut {
            state: st,
            ansi: AnsiState::AwaitingEscape,
            pos: e,
            event: Escape::NoEscape,
        }),
{
    assert(scan_from(st, AnsiState::AwaitingEscape, cb, buf, max, s)
        == scan_from(st, AnsiState::AwaitingOpen, cb, buf, max, s + 1));
    assert(scan_from(st, AnsiState::AwaitingOpen, cb, buf, max, s + 1)
        == scan_from(st, AnsiState::AwaitingChar, cb, buf, max, s + 2));
    lemma_ansi_params_skipped(st, cb, buf, max, s + 2, e);
    assert(scan_from(st, AnsiState::AwaitingEscape, cb, buf, e, s)
        == scan_from(st, AnsiState::AwaitingOpen, cb, buf, e, s + 1));
    assert(scan_from(st, AnsiState::AwaitingOpen, cb, buf, e, s + 1)
        == scan_from(st, AnsiState::AwaitingChar, cb, buf, e, s + 2));
    lemma_ansi_params_skipped(st, cb, buf, e, s + 2, e);
}

} // verus!
