//! Log line parser.
//!
//! The backend writes one event per line in the fixed five-field grammar
//!
//! ```text
//! [<timestamp>] [<level>] <service> in <file>:<line>: <message>
//! ```
//!
//! where the timestamp reads `YYYY-MM-DD HH:MM:SS.mmm` (see
//! [`crate::timestamp`]), `<level>` is any non-empty text without `]`,
//! `<service>` any non-empty text without whitespace, `<file>` any non-empty
//! text without `:`, `<line>` a non-empty run of digits, and `<message>` the
//! rest of the line.  A message starting with the marker `endpoint:` or
//! `response_status:`, followed by whitespace and at least one further
//! token, classifies the line as a request start or a response completion;
//! the endpoint or status code is the last whitespace-delimited token of the
//! message.  Every other structurally valid line is carried as `Other`.
//! A line that violates the grammar is rejected with an error — never with
//! a panic — and the caller drops it.
use crate::timestamp::{parse_timestamp, ts_value, ts_wf};
use vstd::prelude::*;

verus! {

/// ASCII whitespace as the grammar understands it.
pub open spec fn is_space(b: u8) -> bool {
    b == 32 || b == 9 || b == 10 || b == 11 || b == 12 || b == 13
}

/// First index `i >= from` with `s[i] == b`, or `s.len()` if there is none.
pub open spec fn scan_to_byte(s: Seq<u8>, from: int, b: u8) -> int
    decreases s.len() - from,
{
    if from < 0 || from >= s.len() {
        s.len() as int
    } else if s[from] == b {
        from
    } else {
        scan_to_byte(s, from + 1, b)
    }
}

/// First index `i >= from` holding whitespace, or `s.len()` if there is none.
pub open spec fn scan_to_space(s: Seq<u8>, from: int) -> int
    decreases s.len() - from,
{
    if from < 0 || from >= s.len() {
        s.len() as int
    } else if is_space(s[from]) {
        from
    } else {
        scan_to_space(s, from + 1)
    }
}

/// First index `i >= from` holding a non-digit, or `s.len()` if there is none.
pub open spec fn scan_to_nondigit(s: Seq<u8>, from: int) -> int
    decreases s.len() - from,
{
    if from < 0 || from >= s.len() {
        s.len() as int
    } else if !crate::timestamp::is_digit(s[from]) {
        from
    } else {
        scan_to_nondigit(s, from + 1)
    }
}

/// Largest index `i <= from` holding a non-space, or `-1` if there is none.
pub open spec fn rscan_nonspace(s: Seq<u8>, from: int) -> int
    recommends
        from < s.len(),
    decreases from + 1,
{
    if from < 0 {
        -1
    } else if !is_space(s[from]) {
        from
    } else {
        rscan_nonspace(s, from - 1)
    }
}

/// Largest index `i <= from` holding a space, or `-1` if there is none.
pub open spec fn rscan_space(s: Seq<u8>, from: int) -> int
    recommends
        from < s.len(),
    decreases from + 1,
{
    if from < 0 {
        -1
    } else if is_space(s[from]) {
        from
    } else {
        rscan_space(s, from - 1)
    }
}

/// End (exclusive start of `]`) of the timestamp field.
pub open spec fn ts_end(s: Seq<u8>) -> int {
    scan_to_byte(s, 1, 93)
}

/// Start of the level field.
pub open spec fn lvl_start(s: Seq<u8>) -> int {
    ts_end(s) + 3
}

/// End of the level field.
pub open spec fn lvl_end(s: Seq<u8>) -> int {
    scan_to_byte(s, lvl_start(s), 93)
}

/// Start of the service field.
pub open spec fn svc_start(s: Seq<u8>) -> int {
    lvl_end(s) + 2
}

/// End of the service field.
pub open spec fn svc_end(s: Seq<u8>) -> int {
    scan_to_space(s, svc_start(s))
}

/// Start of the file field.
pub open spec fn file_start(s: Seq<u8>) -> int {
    svc_end(s) + 4
}

/// End of the file field.
pub open spec fn file_end(s: Seq<u8>) -> int {
    scan_to_byte(s, file_start(s), 58)
}

/// Start of the line-number field.
pub open spec fn num_start(s: Seq<u8>) -> int {
    file_end(s) + 1
}

/// End of the line-number field.
pub open spec fn num_end(s: Seq<u8>) -> int {
    scan_to_nondigit(s, num_start(s))
}

/// Start of the message field.
pub open spec fn msg_start(s: Seq<u8>) -> int {
    num_end(s) + 2
}

/// The line matches the five-field structure of the grammar (the timestamp
/// field is delimited but not yet checked for well-formedness).
pub open spec fn line_shape_ok(s: Seq<u8>) -> bool {
    let n = s.len() as int;
    &&& n >= 1
    &&& s[0] == 91
    &&& 1 < ts_end(s) < n
    &&& ts_end(s) + 2 < n
    &&& s[ts_end(s) + 1] == 32
    &&& s[ts_end(s) + 2] == 91
    &&& lvl_start(s) < lvl_end(s) < n
    &&& lvl_end(s) + 1 < n
    &&& s[lvl_end(s) + 1] == 32
    &&& svc_end(s) + 3 < n
    &&& svc_start(s) < svc_end(s)
    &&& s[svc_end(s)] == 32
    &&& s[svc_end(s) + 1] == 105
    &&& s[svc_end(s) + 2] == 110
    &&& s[svc_end(s) + 3] == 32
    &&& file_start(s) < file_end(s) < n
    &&& num_start(s) < num_end(s)
    &&& num_end(s) + 1 < n
    &&& s[num_end(s)] == 58
    &&& s[num_end(s) + 1] == 32
}

/// The timestamp field of a line.
pub open spec fn ts_field(s: Seq<u8>) -> Seq<u8> {
    s.subrange(1, ts_end(s))
}

/// The message field of a line.
pub open spec fn msg_field(s: Seq<u8>) -> Seq<u8> {
    s.subrange(msg_start(s), s.len() as int)
}

/// A line the parser accepts: well-shaped, with a well-formed timestamp.
pub open spec fn line_valid(s: Seq<u8>) -> bool {
    line_shape_ok(s) && ts_wf(ts_field(s))
}

/// The bytes of the marker `endpoint:`.
pub open spec fn ep_prefix() -> Seq<u8> {
    seq![101u8, 110u8, 100u8, 112u8, 111u8, 105u8, 110u8, 116u8, 58u8]
}

/// The bytes of the marker `response_status:`.
pub open spec fn rs_prefix() -> Seq<u8> {
    seq![
        114u8,
        101u8,
        115u8,
        112u8,
        111u8,
        110u8,
        115u8,
        101u8,
        95u8,
        115u8,
        116u8,
        97u8,
        116u8,
        117u8,
        115u8,
        58u8,
    ]
}

/// The message starts with the given marker, the marker is followed by
/// whitespace, and at least one further token follows it.
pub open spec fn msg_is_marked(msg: Seq<u8>, prefix: Seq<u8>) -> bool {
    let p = prefix.len() as int;
    &&& msg.len() > p
    &&& msg.subrange(0, p) == prefix
    &&& is_space(msg[p])
    &&& rscan_nonspace(msg, msg.len() - 1) > p
}

/// The last whitespace-delimited token of `s`.
pub open spec fn last_token(s: Seq<u8>) -> Seq<u8> {
    let e = rscan_nonspace(s, s.len() - 1);
    let b = rscan_space(s, e);
    s.subrange(b + 1, e + 1)
}

/// What a parsed event means: an instant and a classified message.
pub ghost struct EventModel {
    pub at: int,
    pub kind: KindModel,
}

/// Classification of a message, at the specification level.
pub ghost enum KindModel {
    Req { endpoint: Seq<u8> },
    Resp { status: Seq<u8> },
    Other,
}

/// Classification of the message field.
pub open spec fn classify_message(msg: Seq<u8>) -> KindModel {
    if msg_is_marked(msg, ep_prefix()) {
        KindModel::Req { endpoint: last_token(msg) }
    } else if msg_is_marked(msg, rs_prefix()) {
        KindModel::Resp { status: last_token(msg) }
    } else {
        KindModel::Other
    }
}

/// The event a valid line denotes.
pub open spec fn event_of_line(s: Seq<u8>) -> EventModel {
    EventModel { at: ts_value(ts_field(s)), kind: classify_message(msg_field(s)) }
}

/// One parsed log line.
#[derive(Clone, Debug, PartialEq, Eq)]
pub struct LogEvent {
    /// Instant of the line, in the timestamp encoding of [`crate::timestamp`].
    pub timestamp_millis: u64,
    /// What the line reports.
    pub kind: EventKind,
}

/// What a structurally valid line reports.
#[derive(Clone, Debug, PartialEq, Eq)]
pub enum EventKind {
    /// The backend began serving a request (message marker `endpoint:`).
    RequestStarted { endpoint: Vec<u8> },
    /// The backend finished a response (message marker `response_status:`).
    ResponseCompleted { status_code: Vec<u8> },
    /// Any other structurally valid line; carried but never acted upon.
    Other,
}

/// Why a line was rejected.
#[derive(Clone, Copy, Debug, PartialEq, Eq, Structural)]
pub enum ParseError {
    /// The line does not match the five-field structure.
    MalformedLine,
    /// The structure matches but the timestamp field is not a well-formed
    /// millisecond timestamp.
    InvalidTimestamp,
}

impl View for EventKind {
    type V = KindModel;

    open spec fn view(&self) -> KindModel {
        match self {
            EventKind::RequestStarted { endpoint } => KindModel::Req { endpoint: endpoint@ },
            EventKind::ResponseCompleted { status_code } => KindModel::Resp {
                status: status_code@,
            },
            EventKind::Other => KindModel::Other,
        }
    }
}

impl View for LogEvent {
    type V = EventModel;

    open spec fn view(&self) -> EventModel {
        EventModel { at: self.timestamp_millis as int, kind: self.kind@ }
    }
}

/// Executable counterpart of [`is_space`].
pub fn is_space_byte(b: u8) -> (r: bool)
    ensures
        r == is_space(b),
{
    b == 32 || b == 9 || b == 10 || b == 11 || b == 12 || b == 13
}

/// First index `i >= from` with `v[i] == b`, or `v.len()` if there is none.
fn find_byte(v: &Vec<u8>, from: usize, b: u8) -> (r: usize)
    requires
        from <= v.len(),
    ensures
        r == scan_to_byte(v@, from as int, b),
        from <= r <= v.len(),
{
    let mut i: usize = from;
    while i < v.len()
        invariant
            from <= i <= v.len(),
            scan_to_byte(v@, from as int, b) == scan_to_byte(v@, i as int, b),
        decreases v.len() - i,
    {
        if v[i] == b {
            return i;
        }
        i = i + 1;
    }
    i
}

/// First index `i >= from` holding whitespace, or `v.len()` if there is none.
fn find_space(v: &Vec<u8>, from: usize) -> (r: usize)
    requires
        from <= v.len(),
    ensures
        r == scan_to_space(v@, from as int),
        from <= r <= v.len(),
{
    let mut i: usize = from;
    while i < v.len()
        invariant
            from <= i <= v.len(),
            scan_to_space(v@, from as int) == scan_to_space(v@, i as int),
        decreases v.len() - i,
    {
        if is_space_byte(v[i]) {
            return i;
        }
        i = i + 1;
    }
    i
}

/// First index `i >= from` holding a non-digit, or `v.len()` if there is none.
fn find_nondigit(v: &Vec<u8>, from: usize) -> (r: usize)
    requires
        from <= v.len(),
    ensures
        r == scan_to_nondigit(v@, from as int),
        from <= r <= v.len(),
{
    let mut i: usize = from;
    while i < v.len()
        invariant
            from <= i <= v.len(),
            scan_to_nondigit(v@, from as int) == scan_to_nondigit(v@, i as int),
        decreases v.len() - i,
    {
        if v[i] < 48 || v[i] > 57 {
            return i;
        }
        i = i + 1;
    }
    i
}

/// Copy of `v[start..end]`.
pub fn copy_range(v: &Vec<u8>, start: usize, end: usize) -> (r: Vec<u8>)
    requires
        start <= end <= v.len(),
    ensures
        r@ == v@.subrange(start as int, end as int),
{
    let mut r: Vec<u8> = Vec::new();
    let mut i: usize = start;
    proof {
        assert(r@ =~= v@.subrange(start as int, start as int));
    }
    while i < end
        invariant
            start <= i <= end <= v.len(),
            r@ == v@.subrange(start as int, i as int),
        decreases end - i,
    {
        r.push(v[i]);
        proof {
            assert(r@ =~= v@.subrange(start as int, (i + 1) as int));
        }
        i = i + 1;
    }
    r
}

/// Largest index holding a non-space, if any.
fn last_nonspace_index(v: &Vec<u8>) -> (r: Option<usize>)
    ensures
        r matches Some(e) ==> e < v.len() && e == rscan_nonspace(v@, v@.len() - 1) && !is_space(
            v@[e as int],
        ),
        r is None ==> rscan_nonspace(v@, v@.len() - 1) == -1,
{
    let mut i: usize = v.len();
    while i > 0
        invariant
            i <= v.len(),
            rscan_nonspace(v@, v@.len() - 1) == rscan_nonspace(v@, i as int - 1),
        decreases i,
    {
        if !is_space_byte(v[i - 1]) {
            return Some(i - 1);
        }
        i = i - 1;
    }
    None
}

/// Start of the whitespace-delimited token that ends at `e`.
fn token_start_from(v: &Vec<u8>, e: usize) -> (b: usize)
    requires
        e < v.len(),
        !is_space(v@[e as int]),
    ensures
        b == rscan_space(v@, e as int) + 1,
        b <= e,
{
    let mut j: usize = e;
    while j > 0
        invariant
            j <= e < v.len(),
            rscan_space(v@, e as int) == rscan_space(v@, j as int - 1),
        decreases j,
    {
        if is_space_byte(v[j - 1]) {
            return j;
        }
        j = j - 1;
    }
    0
}

/// Does the message carry the `endpoint:` marker with a token after it?
fn endpoint_marker(msg: &Vec<u8>) -> (r: bool)
    ensures
        r == msg_is_marked(msg@, ep_prefix()),
{
    if msg.len() < 10 {
        return false;
    }
    let pfx = msg[0] == 101 && msg[1] == 110 && msg[2] == 100 && msg[3] == 112 && msg[4] == 111
        && msg[5] == 105 && msg[6] == 110 && msg[7] == 116 && msg[8] == 58;
    if !pfx {
        proof {
            if msg@.subrange(0, 9) == ep_prefix() {
                assert(msg@[0] == ep_prefix()[0]);
                assert(msg@[1] == ep_prefix()[1]);
                assert(msg@[2] == ep_prefix()[2]);
                assert(msg@[3] == ep_prefix()[3]);
                assert(msg@[4] == ep_prefix()[4]);
                assert(msg@[5] == ep_prefix()[5]);
                assert(msg@[6] == ep_prefix()[6]);
                assert(msg@[7] == ep_prefix()[7]);
                assert(msg@[8] == ep_prefix()[8]);
            }
        }
        return false;
    }
    proof {
        assert(msg@.subrange(0, 9) =~= ep_prefix());
    }
    if !is_space_byte(msg[9]) {
        return false;
    }
    match last_nonspace_index(msg) {
        Some(e) => e > 9,
        None => false,
    }
}

/// Does the message carry the `response_status:` marker with a token after it?
fn response_marker(msg: &Vec<u8>) -> (r: bool)
    ensures
        r == msg_is_marked(msg@, rs_prefix()),
{
    if msg.len() < 17 {
        return false;
    }
    let pfx = msg[0] == 114 && msg[1] == 101 && msg[2] == 115 && msg[3] == 112 && msg[4] == 111
        && msg[5] == 110 && msg[6] == 115 && msg[7] == 101 && msg[8] == 95 && msg[9] == 115
        && msg[10] == 116 && msg[11] == 97 && msg[12] == 116 && msg[13] == 117 && msg[14] == 115
        && msg[15] == 58;
    if !pfx {
        proof {
            if msg@.subrange(0, 16) == rs_prefix() {
                assert(msg@[0] == rs_prefix()[0]);
                assert(msg@[1] == rs_prefix()[1]);
                assert(msg@[2] == rs_prefix()[2]);
                assert(msg@[3] == rs_prefix()[3]);
                assert(msg@[4] == rs_prefix()[4]);
                assert(msg@[5] == rs_prefix()[5]);
                assert(msg@[6] == rs_prefix()[6]);
                assert(msg@[7] == rs_prefix()[7]);
                assert(msg@[8] == rs_prefix()[8]);
                assert(msg@[9] == rs_prefix()[9]);
                assert(msg@[10] == rs_prefix()[10]);
                assert(msg@[11] == rs_prefix()[11]);
                assert(msg@[12] == rs_prefix()[12]);
                assert(msg@[13] == rs_prefix()[13]);
                assert(msg@[14] == rs_prefix()[14]);
                assert(msg@[15] == rs_prefix()[15]);
            }
        }
        return false;
    }
    proof {
        assert(msg@.subrange(0, 16) =~= rs_prefix());
    }
    if !is_space_byte(msg[16]) {
        return false;
    }
    match last_nonspace_index(msg) {
        Some(e) => e > 16,
        None => false,
    }
}

/// Classifies a message field.
pub fn classify(msg: &Vec<u8>) -> (k: EventKind)
    ensures
        k@ == classify_message(msg@),
{
    let ep = endpoint_marker(msg);
    let rs = response_marker(msg);
    if ep || rs {
        let e = match last_nonspace_index(msg) {
            Some(e) => e,
            None => {
                proof {
                    assert(false);
                }
                return EventKind::Other;
            },
        };
        let b = token_start_from(msg, e);
        let tok = copy_range(msg, b, e + 1);
        proof {
            assert(tok@ == last_token(msg@));
        }
        if ep {
            EventKind::RequestStarted { endpoint: tok }
        } else {
            EventKind::ResponseCompleted { status_code: tok }
        }
    } else {
        EventKind::Other
    }
}

/// Parses one log line.
///
/// Returns the structured event exactly when the line matches the grammar
/// and its timestamp is well-formed; every other line yields an error that
/// names what was wrong.  The parser never panics, whatever the input.
pub fn parse(line: &Vec<u8>) -> (r: Result<LogEvent, ParseError>)
    ensures
        r is Ok <==> line_valid(line@),
        r matches Ok(ev) ==> ev@ == event_of_line(line@),
        r matches Err(e) ==> (e == ParseError::MalformedLine <==> !line_shape_ok(line@)),
        r matches Err(e) ==> (e == ParseError::InvalidTimestamp <==> line_shape_ok(line@)
            && !ts_wf(ts_field(line@))),
{
    let n = line.len();
    if n < 1 || line[0] != 91 {
        return Err(ParseError::MalformedLine);
    }
    let te = find_byte(line, 1, 93);
    if !(1 < te && te < n && n - te > 2) {
        return Err(ParseError::MalformedLine);
    }
    if !(line[te + 1] == 32 && line[te + 2] == 91) {
        return Err(ParseError::MalformedLine);
    }
    let ls = te + 3;
    let le = find_byte(line, ls, 93);
    if !(ls < le && le < n && n - le > 1 && line[le + 1] == 32) {
        return Err(ParseError::MalformedLine);
    }
    let ss = le + 2;
    let se = find_space(line, ss);
    if !(se < n && n - se > 3 && ss < se) {
        return Err(ParseError::MalformedLine);
    }
    if !(line[se] == 32 && line[se + 1] == 105 && line[se + 2] == 110 && line[se + 3] == 32) {
        return Err(ParseError::MalformedLine);
    }
    let fs = se + 4;
    let fe = find_byte(line, fs, 58);
    if !(fs < fe && fe < n) {
        return Err(ParseError::MalformedLine);
    }
    let ns = fe + 1;
    let ne = find_nondigit(line, ns);
    if !(ns < ne && ne < n && n - ne > 1 && line[ne] == 58 && line[ne + 1] == 32) {
        return Err(ParseError::MalformedLine);
    }
    let tsv = copy_range(line, 1, te);
    let t = match parse_timestamp(&tsv) {
        Some(t) => t,
        None => { return Err(ParseError::InvalidTimestamp); },
    };
    let msgv = copy_range(line, ne + 2, n);
    let kind = classify(&msgv);
    Ok(LogEvent { timestamp_millis: t, kind })
}

/// A scan started at `from` stops exactly at `to`, the first occurrence of
/// the byte sought.
proof fn lemma_scan_to_byte_finds(s: Seq<u8>, from: int, to: int, b: u8)
    requires
        0 <= from <= to < s.len(),
        forall|i: int| from <= i < to ==> #[trigger] s[i] != b,
        s[to] == b,
    ensures
        scan_to_byte(s, from, b) == to,
    decreases to - from,
{
    if from < to {
        lemma_scan_to_byte_finds(s, from + 1, to, b);
    }
}

/// A scan started at `from` stops exactly at `to`, the first whitespace.
proof fn lemma_scan_to_space_finds(s: Seq<u8>, from: int, to: int)
    requires
        0 <= from <= to < s.len(),
        forall|i: int| from <= i < to ==> !is_space(#[trigger] s[i]),
        is_space(s[to]),
    ensures
        scan_to_space(s, from) == to,
    decreases to - from,
{
    if from < to {
        lemma_scan_to_space_finds(s, from + 1, to);
    }
}

/// A scan started at `from` stops exactly at `to`, the first non-digit.
proof fn lemma_scan_to_nondigit_finds(s: Seq<u8>, from: int, to: int)
    requires
        0 <= from <= to < s.len(),
        forall|i: int| from <= i < to ==> crate::timestamp::is_digit(#[trigger] s[i]),
        !crate::timestamp::is_digit(s[to]),
    ensures
        scan_to_nondigit(s, from) == to,
    decreases to - from,
{
    if from < to {
        lemma_scan_to_nondigit_finds(s, from + 1, to);
    }
}

/// The line that five field values assemble to, in the grammar's shape.
pub open spec fn rendered_line(
    ts: Seq<u8>,
    lvl: Seq<u8>,
    svc: Seq<u8>,
    file: Seq<u8>,
    num: Seq<u8>,
    msg: Seq<u8>,
) -> Seq<u8> {
    seq![91u8] + ts + seq![93u8, 32u8, 91u8] + lvl + seq![93u8, 32u8] + svc + seq![
        32u8,
        105u8,
        110u8,
        32u8,
    ] + file + seq![58u8] + num + seq![58u8, 32u8] + msg
}

/// What the grammar demands of the field values themselves: a well-formed
/// timestamp, a non-empty level without `]`, a non-empty service without
/// whitespace, a non-empty file without `:`, a non-empty run of digits, and
/// any message.
pub open spec fn fields_wf(
    ts: Seq<u8>,
    lvl: Seq<u8>,
    svc: Seq<u8>,
    file: Seq<u8>,
    num: Seq<u8>,
) -> bool {
    &&& ts_wf(ts)
    &&& lvl.len() > 0
    &&& forall|i: int| 0 <= i < lvl.len() ==> #[trigger] lvl[i] != 93
    &&& svc.len() > 0
    &&& forall|i: int| 0 <= i < svc.len() ==> !is_space(#[trigger] svc[i])
    &&& file.len() > 0
    &&& forall|i: int| 0 <= i < file.len() ==> #[trigger] file[i] != 58
    &&& num.len() > 0
    &&& forall|i: int| 0 <= i < num.len() ==> crate::timestamp::is_digit(#[trigger] num[i])
}

/// No byte of a well-formed timestamp is `]`.
proof fn lemma_ts_wf_no_bracket(ts: Seq<u8>)
    requires
        ts_wf(ts),
    ensures
        forall|i: int| 0 <= i < ts.len() ==> #[trigger] ts[i] != 93,
{
    assert forall|i: int| 0 <= i < ts.len() implies #[trigger] ts[i] != 93 by {
        if 0 <= i < 4 || 5 <= i < 7 || 8 <= i < 10 || 11 <= i < 13 || 14 <= i < 16 || 17 <= i < 19
            || 20 <= i < 23 {
            assert(crate::timestamp::is_digit(ts[i]));
        }
    }
}

/// Law: every line assembled from well-formed fields matches the grammar,
/// and the parser reads back from it exactly the timestamp and the message
/// classification the fields carry.
pub proof fn lemma_grammar_complete(
    ts: Seq<u8>,
    lvl: Seq<u8>,
    svc: Seq<u8>,
    file: Seq<u8>,
    num: Seq<u8>,
    msg: Seq<u8>,
)
    requires
        fields_wf(ts, lvl, svc, file, num),
    ensures
        line_valid(rendered_line(ts, lvl, svc, file, num, msg)),
        event_of_line(rendered_line(ts, lvl, svc, file, num, msg)) == (EventModel {
            at: ts_value(ts),
            kind: classify_message(msg),
        }),
{
    let s = rendered_line(ts, lvl, svc, file, num, msg);
    let t = ts.len() as int;
    let l = lvl.len() as int;
    let v = svc.len() as int;
    let f = file.len() as int;
    let d = num.len() as int;
    let m = msg.len() as int;
    let p1 = 1 + t;
    let p2 = p1 + 3 + l;
    let p3 = p2 + 2 + v;
    let p4 = p3 + 4 + f;
    let p5 = p4 + 1 + d;
    assert(s.len() == p5 + 2 + m);
    lemma_ts_wf_no_bracket(ts);

    assert(s[0] == 91);
    assert(forall|i: int| 1 <= i < p1 ==> #[trigger] s[i] == ts[i - 1]);
    assert(s[p1] == 93 && s[p1 + 1] == 32 && s[p1 + 2] == 91);
    assert(forall|i: int| p1 + 3 <= i < p2 ==> #[trigger] s[i] == lvl[i - (p1 + 3)]);
    assert(s[p2] == 93 && s[p2 + 1] == 32);
    assert(forall|i: int| p2 + 2 <= i < p3 ==> #[trigger] s[i] == svc[i - (p2 + 2)]);
    assert(s[p3] == 32 && s[p3 + 1] == 105 && s[p3 + 2] == 110 && s[p3 + 3] == 32);
    assert(forall|i: int| p3 + 4 <= i < p4 ==> #[trigger] s[i] == file[i - (p3 + 4)]);
    assert(s[p4] == 58);
    assert(forall|i: int| p4 + 1 <= i < p5 ==> #[trigger] s[i] == num[i - (p4 + 1)]);
    assert(s[p5] == 58 && s[p5 + 1] == 32);
    assert(forall|i: int| p5 + 2 <= i < s.len() ==> #[trigger] s[i] == msg[i - (p5 + 2)]);

    lemma_scan_to_byte_finds(s, 1, p1, 93);
    assert(ts_end(s) == p1);
    lemma_scan_to_byte_finds(s, p1 + 3, p2, 93);
    assert(lvl_end(s) == p2);
    lemma_scan_to_space_finds(s, p2 + 2, p3);
    assert(svc_end(s) == p3);
    lemma_scan_to_byte_finds(s, p3 + 4, p4, 58);
    assert(file_end(s) == p4);
    lemma_scan_to_nondigit_finds(s, p4 + 1, p5);
    assert(num_end(s) == p5);
    assert(line_shape_ok(s));
    assert(ts_field(s) =~= ts);
    assert(msg_field(s) =~= msg);
}

/// Removes one trailing carriage return, as line splitting does before the
/// parser sees a line.
pub open spec fn strip_cr(l: Seq<u8>) -> Seq<u8> {
    if l.len() > 0 && l[l.len() - 1] == 13 {
        l.drop_last()
    } else {
        l
    }
}

/// The events denoted by a sequence of raw lines: each line is stripped of a
/// trailing carriage return and parsed; invalid lines are dropped.
pub open spec fn events_of(lines: Seq<Seq<u8>>) -> Seq<EventModel>
    decreases lines.len(),
{
    if lines.len() == 0 {
        Seq::empty()
    } else {
        let l = strip_cr(lines.last());
        events_of(lines.drop_last()) + if line_valid(l) {
            seq![event_of_line(l)]
        } else {
            Seq::empty()
        }
    }
}

/// Parses a batch of raw lines in order, dropping the lines the grammar
/// rejects.
pub fn collect_events(lines: &Vec<Vec<u8>>) -> (evs: Vec<LogEvent>)
    ensures
        evs@.map_values(|e: LogEvent| e@) == events_of(lines@.map_values(|l: Vec<u8>| l@)),
{
    let mut evs: Vec<LogEvent> = Vec::new();
    let mut i: usize = 0;
    proof {
        assert(evs@.map_values(|e: LogEvent| e@) =~= events_of(
            lines@.map_values(|l: Vec<u8>| l@).take(0),
        ));
    }
    while i < lines.len()
        invariant
            i <= lines.len(),
            evs@.map_values(|e: LogEvent| e@) == events_of(
                lines@.map_values(|l: Vec<u8>| l@).take(i as int),
            ),
        decreases lines.len() - i,
    {
        let raw = &lines[i];
        let m = raw.len();
        let stripped = if m > 0 && raw[m - 1] == 13 {
            copy_range(raw, 0, m - 1)
        } else {
            copy_range(raw, 0, m)
        };
        proof {
            assert(stripped@ =~= strip_cr(raw@));
        }
        match parse(&stripped) {
            Ok(ev) => {
                evs.push(ev);
            },
            Err(_) => {},
        }
        proof {
            let mapped = lines@.map_values(|l: Vec<u8>| l@);
            assert(mapped.take(i + 1).drop_last() =~= mapped.take(i as int));
            assert(mapped.take(i + 1).last() == raw@);
            assert(evs@.map_values(|e: LogEvent| e@) =~= events_of(mapped.take(i + 1)));
        }
        i = i + 1;
    }
    proof {
        assert(lines@.map_values(|l: Vec<u8>| l@).take(lines@.len() as int) =~= lines@.map_values(
            |l: Vec<u8>| l@,
        ));
    }
    evs
}

} // verus!
