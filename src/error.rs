use vstd::prelude::*;
use vstd::string::StringSliceAdditionalSpecFns;
use vstd::utf8::*;

verus! {

broadcast use vstd::utf8::group_utf8_lib;

/// Why a render failed.
#[derive(Debug, PartialEq)]
pub enum PiktErrorReason {
    /// The markup or the class holds a nul byte, at the given byte offset.
    IncompatibleInput(usize),
    ParserStackOverflow,
    OutOfMemory,
    DivisionByZero,
    SyntaxError,
    ArcGeometryError,
    UnknownObject,
    UnknownObjectType,
    ValueAlreadySet,
    ValueAlreadyFixed,
    OnlyWithLineOrientedObject,
    NoPriorPathPoints,
    HeadingOutOfBounds,
    MissingAt,
    MissingFromTo,
    ClosedPolygon,
    StartLineAlreadyFixed,
    TooFewVertexes,
    PositionAlreadyFixedByAt,
    AttributeTooManyTerms,
    AttributeMissingText,
    UnknownColorName,
    UnknownVariable,
    OrdinalOutOfBounds,
    MissingPriorObjectType,
    NotALine,
    VertexUnknown,
    NegativeSqrt,
    MacroTooManyArguments,
    MacroUnterminatedArgumentList,
    TokenTooLong,
    TokenUnknown,
    MacroTooDeep,
    MacroRecursive,
    /// A message that the engine gave and that has no variant of its own.
    Other(String),
}

/// The reason that the engine's message `m` stands for, where it has a
/// variant of its own.
pub open spec fn known_reason(m: Seq<char>) -> Option<PiktErrorReason> {
    if m == "division by zero"@ {
        Some(PiktErrorReason::DivisionByZero)
    } else if m == "syntax error"@ {
        Some(PiktErrorReason::SyntaxError)
    } else if m == "arc geometry error"@ {
        Some(PiktErrorReason::ArcGeometryError)
    } else if m == "unknown object type"@ {
        Some(PiktErrorReason::UnknownObjectType)
    } else if m == "no such object"@ {
        Some(PiktErrorReason::UnknownObject)
    } else if m == "value is already set"@ {
        Some(PiktErrorReason::ValueAlreadySet)
    } else if m == "value already fixed by prior constraints"@ {
        Some(PiktErrorReason::ValueAlreadyFixed)
    } else if m == "use with line-oriented objects only"@ {
        Some(PiktErrorReason::OnlyWithLineOrientedObject)
    } else if m == "no prior path points"@ {
        Some(PiktErrorReason::NoPriorPathPoints)
    } else if m == "too many path elements"@ {
        Some(PiktErrorReason::NoPriorPathPoints)
    } else if m == "headings should be between 0 and 360"@ {
        Some(PiktErrorReason::HeadingOutOfBounds)
    } else if m == "use \"at\" to position this object"@ {
        Some(PiktErrorReason::MissingAt)
    } else if m == "use \"from\" and \"to\" to position this object"@ {
        Some(PiktErrorReason::MissingFromTo)
    } else if m == "polygon is closed"@ {
        Some(PiktErrorReason::ClosedPolygon)
    } else if m == "need at least 3 vertexes in order to close the polygon"@ {
        Some(PiktErrorReason::TooFewVertexes)
    } else if m == "line start location already fixed"@ {
        Some(PiktErrorReason::StartLineAlreadyFixed)
    } else if m == "location fixed by prior \"at\""@ {
        Some(PiktErrorReason::PositionAlreadyFixedByAt)
    } else if m == "too many text terms"@ {
        Some(PiktErrorReason::AttributeTooManyTerms)
    } else if m == "no text to fit to"@ {
        Some(PiktErrorReason::AttributeMissingText)
    } else if m == "not a known color name"@ {
        Some(PiktErrorReason::UnknownColorName)
    } else if m == "no such variable"@ {
        Some(PiktErrorReason::UnknownVariable)
    } else if m == "value too big - max '1000th'"@ {
        Some(PiktErrorReason::OrdinalOutOfBounds)
    } else if m == "no prior objects of the same type"@ {
        Some(PiktErrorReason::MissingPriorObjectType)
    } else if m == "object is not a line"@ {
        Some(PiktErrorReason::NotALine)
    } else if m == "no such vertex"@ {
        Some(PiktErrorReason::VertexUnknown)
    } else if m == "sqrt of negative value"@ {
        Some(PiktErrorReason::NegativeSqrt)
    } else if m == "too many macro arguments - max 9"@ {
        Some(PiktErrorReason::MacroTooManyArguments)
    } else if m == "unterminated macro argument list"@ {
        Some(PiktErrorReason::MacroUnterminatedArgumentList)
    } else if m == "token is too long - max length 50000 bytes"@ {
        Some(PiktErrorReason::TokenTooLong)
    } else if m == "unrecognized token"@ {
        Some(PiktErrorReason::TokenUnknown)
    } else if m == "macros nested too deep"@ {
        Some(PiktErrorReason::MacroTooDeep)
    } else if m == "recursive macro definition"@ {
        Some(PiktErrorReason::MacroRecursive)
    } else {
        None
    }
}

/// `r` is the reason for the engine's message `m`: its own variant where it
/// has one, else `Other` carrying `m`.
pub open spec fn names_message(r: PiktErrorReason, m: Seq<char>) -> bool {
    match known_reason(m) {
        Some(k) => r == k,
        None => match r {
            PiktErrorReason::Other(t) => t@ == m,
            _ => false,
        },
    }
}

/// Two reasons are the same: equal, or both `Other` with the same text.
pub open spec fn same_reason(a: PiktErrorReason, b: PiktErrorReason) -> bool {
    a == b || (a is Other && b is Other && a->Other_0@ == b->Other_0@)
}

/// Two errors are the same: at the same place, for the same reason.
pub open spec fn same_error(a: PiktError, b: PiktError) -> bool {
    a.spec_line() == b.spec_line() && a.spec_column() == b.spec_column() && same_reason(
        a.spec_reason(),
        b.spec_reason(),
    )
}

/// A diagnostic reports one error: any two errors that it reports are the
/// same.
pub proof fn lemma_reports_one_error(b: Seq<u8>, x: PiktError, y: PiktError)
    requires
        reports(x, b),
        reports(y, b),
    ensures
        same_error(x, y),
{
}

fn same_text(m: &String, lit: &str) -> (r: bool)
    ensures
        r == (m@ == lit@),
{
    let t = lit.to_owned();
    m.eq(&t)
}

impl PiktErrorReason {
    /// The reason that an engine message stands for.
    pub fn from_message(m: &String) -> (r: PiktErrorReason)
        ensures
            names_message(r, m@),
    {
        if same_text(m, "division by zero") {
            PiktErrorReason::DivisionByZero
        } else if same_text(m, "syntax error") {
            PiktErrorReason::SyntaxError
        } else if same_text(m, "arc geometry error") {
            PiktErrorReason::ArcGeometryError
        } else if same_text(m, "unknown object type") {
            PiktErrorReason::UnknownObjectType
        } else if same_text(m, "no such object") {
            PiktErrorReason::UnknownObject
        } else if same_text(m, "value is already set") {
            PiktErrorReason::ValueAlreadySet
        } else if same_text(m, "value already fixed by prior constraints") {
            PiktErrorReason::ValueAlreadyFixed
        } else if same_text(m, "use with line-oriented objects only") {
            PiktErrorReason::OnlyWithLineOrientedObject
        } else if same_text(m, "no prior path points") {
            PiktErrorReason::NoPriorPathPoints
        } else if same_text(m, "too many path elements") {
            PiktErrorReason::NoPriorPathPoints
        } else if same_text(m, "headings should be between 0 and 360") {
            PiktErrorReason::HeadingOutOfBounds
        } else if same_text(m, "use \"at\" to position this object") {
            PiktErrorReason::MissingAt
        } else if same_text(m, "use \"from\" and \"to\" to position this object") {
            PiktErrorReason::MissingFromTo
        } else if same_text(m, "polygon is closed") {
            PiktErrorReason::ClosedPolygon
        } else if same_text(m, "need at least 3 vertexes in order to close the polygon") {
            PiktErrorReason::TooFewVertexes
        } else if same_text(m, "line start location already fixed") {
            PiktErrorReason::StartLineAlreadyFixed
        } else if same_text(m, "location fixed by prior \"at\"") {
            PiktErrorReason::PositionAlreadyFixedByAt
        } else if same_text(m, "too many text terms") {
            PiktErrorReason::AttributeTooManyTerms
        } else if same_text(m, "no text to fit to") {
            PiktErrorReason::AttributeMissingText
        } else if same_text(m, "not a known color name") {
            PiktErrorReason::UnknownColorName
        } else if same_text(m, "no such variable") {
            PiktErrorReason::UnknownVariable
        } else if same_text(m, "value too big - max '1000th'") {
            PiktErrorReason::OrdinalOutOfBounds
        } else if same_text(m, "no prior objects of the same type") {
            PiktErrorReason::MissingPriorObjectType
        } else if same_text(m, "object is not a line") {
            PiktErrorReason::NotALine
        } else if same_text(m, "no such vertex") {
            PiktErrorReason::VertexUnknown
        } else if same_text(m, "sqrt of negative value") {
            PiktErrorReason::NegativeSqrt
        } else if same_text(m, "too many macro arguments - max 9") {
            PiktErrorReason::MacroTooManyArguments
        } else if same_text(m, "unterminated macro argument list") {
            PiktErrorReason::MacroUnterminatedArgumentList
        } else if same_text(m, "token is too long - max length 50000 bytes") {
            PiktErrorReason::TokenTooLong
        } else if same_text(m, "unrecognized token") {
            PiktErrorReason::TokenUnknown
        } else if same_text(m, "macros nested too deep") {
            PiktErrorReason::MacroTooDeep
        } else if same_text(m, "recursive macro definition") {
            PiktErrorReason::MacroRecursive
        } else {
            PiktErrorReason::Other(m.clone())
        }
    }
}

/// A failed render: where the engine stopped, and why.
#[derive(Debug, PartialEq)]
pub struct PiktError {
    line: usize,
    column: usize,
    reason: PiktErrorReason,
}

/// How far a scan of a diagnostic has come: the source line and column of
/// the error, the byte range of the message, and whether a line of the
/// engine's own reported a parser stack overflow or a failed allocation.
pub type ScanState = (nat, nat, Option<(int, int)>, bool, bool);

/// The width of the line-number prefix before the source text, less one.
pub const CARET_PADDING: usize = 11;

/// Whether bytes `s..e` of `b` begin with `p`.
pub open spec fn starts_at(b: Seq<u8>, s: int, e: int, p: Seq<u8>) -> bool {
    s + p.len() <= e && b.subrange(s, s + p.len()) == p
}

/// Whether `p` occurs within bytes `s..e` of `b`.
pub open spec fn occurs_between(b: Seq<u8>, s: int, e: int, p: Seq<u8>) -> bool {
    exists|i: int| s <= i && i + p.len() <= e && #[trigger] b.subrange(i, i + p.len()) == p
}

/// The first offset from `i` on, short of `e`, at which `b` holds no space.
pub open spec fn skip_spaces(b: Seq<u8>, i: int, e: int) -> int
    decreases e - i,
{
    if i < e && b[i] == 32u8 {
        skip_spaces(b, i + 1, e)
    } else {
        i
    }
}

/// `x`, or the largest `usize` where `x` is larger.
pub open spec fn saturate(x: nat) -> nat {
    if x > usize::MAX {
        usize::MAX as nat
    } else {
        x
    }
}

/// The decimal number that the digits of `b` from `i` on (short of `e`)
/// append to `acc`, saturated at the largest `usize`.
pub open spec fn digits_from(b: Seq<u8>, i: int, e: int, acc: nat) -> nat
    decreases e - i,
{
    if i < e && 48u8 <= b[i] <= 57u8 {
        digits_from(b, i + 1, e, saturate(acc * 10 + (b[i] - 48u8) as nat))
    } else {
        acc
    }
}

/// The line number in the prefix `/* NNNN */` of the echoed source line
/// `s..e`.
pub open spec fn prefix_number(b: Seq<u8>, s: int, e: int) -> nat {
    digits_from(b, skip_spaces(b, s + 2, e), e, 0)
}

/// The first offset in `s..e` at which `b` holds `c`, or `e`.
pub open spec fn first_at(b: Seq<u8>, s: int, e: int, c: u8) -> int
    decreases e - s,
{
    if s >= e {
        e
    } else if b[s] == c {
        s
    } else {
        first_at(b, s + 1, e, c)
    }
}

/// The column that a caret line `s..e` points at: one past its length, less
/// the line-number prefix, and no less than zero.
pub open spec fn caret_column(s: int, e: int) -> nat {
    if e - s >= CARET_PADDING {
        (e - s - CARET_PADDING) as nat
    } else {
        0
    }
}

/// The effect of the line `s..e` of a diagnostic. Until the message is
/// found, an echoed source line (it starts with `/*`) gives the line number
/// in its prefix, and a line that ends in `^` is the caret line that gives
/// the column. A line that starts with `ERROR:` and holds a space carries the
/// message, which follows its first space. A line that is not echoed source
/// may report a parser stack overflow or a failed allocation.
pub open spec fn line_step(b: Seq<u8>, s: int, e: int, st: ScanState) -> ScanState {
    let echoed = starts_at(b, s, e, "/*".spec_bytes());
    let before = st.2 is None;
    let line = if echoed && before {
        prefix_number(b, s, e)
    } else {
        st.0
    };
    let column = if before && s < e && b[e - 1] == 94u8 {
        caret_column(s, e)
    } else {
        st.1
    };
    let sp = first_at(b, s, e, 32u8);
    let message = if starts_at(b, s, e, "ERROR:".spec_bytes()) && sp < e {
        Some((sp + 1, e))
    } else {
        st.2
    };
    let overflow = st.3 || (!echoed && occurs_between(
        b,
        s,
        e,
        "parser stack overflow".spec_bytes(),
    ));
    let no_memory = st.4 || (!echoed && occurs_between(b, s, e, "Out of memory".spec_bytes()));
    (line, column, message, overflow, no_memory)
}

/// Where the line that starts at `s` and whose newline is at `i` ends: before
/// a carriage return that precedes the newline.
pub open spec fn line_end(b: Seq<u8>, s: int, i: int) -> int {
    if i > s && b[i - 1] == 13u8 {
        i - 1
    } else {
        i
    }
}

/// The state after the lines of `b` from offset `i` on, where the current
/// line started at `s` and `st` is the state before it.
pub open spec fn scan_from(b: Seq<u8>, i: int, s: int, st: ScanState) -> ScanState
    decreases b.len() - i,
{
    if i >= b.len() {
        if s < b.len() {
            line_step(b, s, b.len() as int, st)
        } else {
            st
        }
    } else if b[i] == 10u8 {
        scan_from(b, i + 1, i + 1, line_step(b, s, line_end(b, s, i), st))
    } else {
        scan_from(b, i + 1, s, st)
    }
}

/// The state after all lines of `b`.
pub open spec fn scan(b: Seq<u8>) -> ScanState {
    scan_from(b, 0, 0, (0, 0, None, false, false))
}

/// The message of the diagnostic `b`: the text after the first space of the
/// last `ERROR:` line, or `unknown error` where there is none.
pub open spec fn message_of(b: Seq<u8>) -> Seq<char> {
    match scan(b).2 {
        Some((s, e)) => decode_utf8(b.subrange(s, e)),
        None => "unknown error"@,
    }
}

/// `r` is what the plain-text diagnostic `b` reports.
pub open spec fn reports(r: PiktError, b: Seq<u8>) -> bool {
    if scan(b).3 {
        r.spec_line() == 0 && r.spec_column() == 0 && r.spec_reason()
            == PiktErrorReason::ParserStackOverflow
    } else if scan(b).4 {
        r.spec_line() == 0 && r.spec_column() == 0 && r.spec_reason()
            == PiktErrorReason::OutOfMemory
    } else {
        r.spec_line() == scan(b).0 && r.spec_column() == scan(b).1 && names_message(
            r.spec_reason(),
            message_of(b),
        )
    }
}

fn occurs_at(b: &[u8], i: usize, p: &[u8]) -> (r: bool)
    requires
        i + p@.len() <= b@.len(),
    ensures
        r == (b@.subrange(i as int, i + p@.len()) == p@),
{
    let n = b.len();
    let mut k: usize = 0;
    while k < p.len()
        invariant
            n == b@.len(),
            0 <= k <= p@.len(),
            i + p@.len() <= b@.len(),
            b@.subrange(i as int, i + k) == p@.subrange(0, k as int),
        decreases p@.len() - k,
    {
        if b[i + k] != p[k] {
            assert(b@.subrange(i as int, i + p@.len())[k as int] != p@[k as int]);
            return false;
        }
        assert(b@.subrange(i as int, i + k + 1) =~= p@.subrange(0, k + 1));
        k = k + 1;
    }
    assert(p@.subrange(0, p@.len() as int) =~= p@);
    true
}

fn occurs_within(b: &[u8], s: usize, e: usize, p: &[u8]) -> (r: bool)
    requires
        s <= e <= b@.len(),
    ensures
        r == occurs_between(b@, s as int, e as int, p@),
{
    if p.len() > e - s {
        return false;
    }
    if p.len() == 0 {
        assert(b@.subrange(s as int, s + p@.len()) =~= p@);
        return true;
    }
    let last = e - p.len();
    let mut i: usize = s;
    while i <= last
        invariant
            s <= i <= last + 1,
            last + p@.len() == e,
            e <= b@.len(),
            p@.len() > 0,
            forall|j: int| s <= j < i ==> #[trigger] b@.subrange(j, j + p@.len()) != p@,
        decreases last + 1 - i,
    {
        if occurs_at(b, i, p) {
            return true;
        }
        i = i + 1;
    }
    false
}

fn starts_with_at(b: &[u8], s: usize, e: usize, p: &[u8]) -> (r: bool)
    requires
        s <= e <= b@.len(),
    ensures
        r == starts_at(b@, s as int, e as int, p@),
{
    if p.len() > e - s {
        false
    } else {
        occurs_at(b, s, p)
    }
}

pub(crate) fn find_byte(b: &[u8], s: usize, e: usize, c: u8) -> (r: usize)
    requires
        s <= e <= b@.len(),
    ensures
        r == first_at(b@, s as int, e as int, c),
        s <= r <= e,
        r < e ==> b@[r as int] == c,
{
    let mut i: usize = s;
    while i < e
        invariant
            s <= i <= e <= b@.len(),
            first_at(b@, s as int, e as int, c) == first_at(b@, i as int, e as int, c),
        decreases e - i,
    {
        if b[i] == c {
            return i;
        }
        i = i + 1;
    }
    i
}

/// The executable form of a scan state.
pub type Scan = (usize, usize, Option<(usize, usize)>, bool, bool);

/// The scan state that the executable counters and message range stand for.
pub open spec fn state_view(st: Scan) -> ScanState {
    (
        st.0 as nat,
        st.1 as nat,
        match st.2 {
            Some((a, e)) => Some((a as int, e as int)),
            None => None,
        },
        st.3,
        st.4,
    )
}

/// Whether `st`'s message range starts after a space and ends at a line end.
pub open spec fn message_in(b: Seq<u8>, st: Scan) -> bool {
    match st.2 {
        Some((a, z)) => 0 < a <= z <= b.len() && b[a - 1] == 32u8 && (z == b.len() || b[z as int]
            == 10u8 || b[z as int] == 13u8),
        None => true,
    }
}

fn read_prefix_number(b: &[u8], s: usize, e: usize) -> (r: usize)
    requires
        s <= e <= b@.len(),
    ensures
        r as nat == prefix_number(b@, s as int, e as int),
{
    if e - s < 2 {
        return 0;
    }
    let mut i: usize = s + 2;
    while i < e && b[i] == 32u8
        invariant
            s + 2 <= i <= e <= b@.len(),
            skip_spaces(b@, s + 2, e as int) == skip_spaces(b@, i as int, e as int),
        decreases e - i,
    {
        i = i + 1;
    }
    let mut acc: usize = 0;
    while i < e && 48u8 <= b[i] && b[i] <= 57u8
        invariant
            i <= e <= b@.len(),
            prefix_number(b@, s as int, e as int) == digits_from(b@, i as int, e as int, acc as nat),
        decreases e - i,
    {
        let next: u128 = (acc as u128) * 10 + ((b[i] - 48u8) as u128);
        acc = if next > usize::MAX as u128 {
            usize::MAX
        } else {
            next as usize
        };
        i = i + 1;
    }
    acc
}

fn apply_line(b: &[u8], s: usize, e: usize, st: Scan) -> (r: Scan)
    requires
        s <= e <= b@.len(),
        e == b@.len() || b@[e as int] == 10u8 || b@[e as int] == 13u8,
        message_in(b@, st),
    ensures
        state_view(r) == line_step(b@, s as int, e as int, state_view(st)),
        message_in(b@, r),
{
    let echoed = starts_with_at(b, s, e, "/*".as_bytes());
    let before = st.2.is_none();
    let line = if echoed && before {
        read_prefix_number(b, s, e)
    } else {
        st.0
    };
    let column = if before && s < e && b[e - 1] == 94u8 {
        if e - s >= CARET_PADDING {
            e - s - CARET_PADDING
        } else {
            0
        }
    } else {
        st.1
    };
    let sp = find_byte(b, s, e, 32u8);
    let message = if starts_with_at(b, s, e, "ERROR:".as_bytes()) && sp < e {
        Some((sp + 1, e))
    } else {
        st.2
    };
    let overflow = st.3 || (!echoed && occurs_within(b, s, e, "parser stack overflow".as_bytes()));
    let no_memory = st.4 || (!echoed && occurs_within(b, s, e, "Out of memory".as_bytes()));
    (line, column, message, overflow, no_memory)
}

impl PiktError {
    pub closed spec fn spec_line(&self) -> usize {
        self.line
    }

    pub closed spec fn spec_column(&self) -> usize {
        self.column
    }

    pub closed spec fn spec_reason(&self) -> PiktErrorReason {
        self.reason
    }

    /// An error at `line` and `column` (both counted from one; zero where
    /// there is no position).
    pub fn new(line: usize, column: usize, reason: PiktErrorReason) -> (r: PiktError)
        ensures
            r.spec_line() == line,
            r.spec_column() == column,
            r.spec_reason() == reason,
    {
        PiktError { line, column, reason }
    }

    pub fn line(&self) -> (r: usize)
        ensures
            r == self.spec_line(),
    {
        self.line
    }

    pub fn column(&self) -> (r: usize)
        ensures
            r == self.spec_column(),
    {
        self.column
    }

    pub fn reason(&self) -> (r: &PiktErrorReason)
        ensures
            *r == self.spec_reason(),
    {
        &self.reason
    }

    /// Reads the engine's plain-text diagnostic: the echoed source lines with
    /// their line numbers, the caret line under the offending token and the
    /// closing `ERROR:` line.
    pub fn parse_diagnostic(s: &str) -> (r: PiktError)
        ensures
            reports(r, s.spec_bytes()),
    {
        let b = s.as_bytes();
        let mut st: Scan = (0, 0, None, false, false);
        let mut ls: usize = 0;
        let mut i: usize = 0;
        while i < b.len()
            invariant
                0 <= ls <= i <= b@.len(),
                b@ == s.spec_bytes(),
                message_in(b@, st),
                scan(b@) == scan_from(b@, i as int, ls as int, state_view(st)),
            decreases b@.len() - i,
        {
            if b[i] == 10u8 {
                let e = if i > ls && b[i - 1] == 13u8 {
                    i - 1
                } else {
                    i
                };
                st = apply_line(b, ls, e, st);
                ls = i + 1;
            }
            i = i + 1;
        }
        if ls < b.len() {
            st = apply_line(b, ls, b.len(), st);
        }
        if st.3 {
            return PiktError { line: 0, column: 0, reason: PiktErrorReason::ParserStackOverflow };
        }
        if st.4 {
            return PiktError { line: 0, column: 0, reason: PiktErrorReason::OutOfMemory };
        }
        let message = match st.2 {
            Some((a, z)) => slice_text(s, a, z),
            None => String::from_str("unknown error"),
        };
        let reason = PiktErrorReason::from_message(&message);
        PiktError { line: st.0, column: st.1, reason }
    }
}

/// The text of bytes `a..z` of `s`, where byte `a - 1` is a space and `z` is
/// the end of `s` or the offset of a line break.
fn slice_text(s: &str, a: usize, z: usize) -> (r: String)
    requires
        0 < a <= z <= s.spec_bytes().len(),
        s.spec_bytes()[a - 1] == 32u8,
        z == s.spec_bytes().len() || s.spec_bytes()[z as int] == 10u8 || s.spec_bytes()[z
            as int] == 13u8,
    ensures
        r@ == decode_utf8(s.spec_bytes().subrange(a as int, z as int)),
{
    let ghost b = s.spec_bytes();
    proof {
        if z < b.len() {
            assert(is_char_boundary(b, z as int) <==> !is_continuation_byte(b[z as int]));
        }
    }
    let (head, _) = s.split_at(z);
    let ghost hb = head.spec_bytes();
    proof {
        assert(hb[a - 1] == 32u8);
        assert(is_char_boundary(hb, a - 1) <==> !is_continuation_byte(hb[a - 1]));
    }
    let (_, tail) = head.split_at(a - 1);
    let ghost tb = tail.spec_bytes();
    proof {
        assert(tb[0] == 32u8);
        assert(length_of_first_scalar(tb) == 1);
        assert(pop_first_scalar(tb) =~= tb.subrange(1, tb.len() as int));
        reveal_with_fuel(is_char_boundary, 2);
        assert(is_char_boundary(tb, 1));
    }
    let (_, text) = tail.split_at(1);
    proof {
        assert(text.spec_bytes() =~= b.subrange(a as int, z as int));
    }
    text.to_owned()
}

impl std::str::FromStr for PiktError {
    type Err = PiktError;

    /// Reads a plain-text diagnostic; see [`PiktError::parse_diagnostic`].
    /// It never fails.
    fn from_str(s: &str) -> (r: Result<PiktError, PiktError>)
        ensures
            r is Ok && reports(r->Ok_0, s.spec_bytes()),
    {
        Ok(PiktError::parse_diagnostic(s))
    }
}

} // verus!
