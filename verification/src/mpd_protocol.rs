//! The MPD wire format: the welcome banner, response lines (`OK`, `ACK`,
//! `key: value`) and command lines.
use vstd::prelude::*;

use crate::mpd_error::{MpdError, MpdErrorV, ProtocolError, ProtocolErrorV};
use crate::mpd_fields::lift_protocol;
use crate::mpd_types::{fields_view, Field};
use crate::text::push_char;
use vstd::utf8::encode_utf8;
use crate::mpd_version::{version_text, MpdVersion};
use crate::text::{decimal, decimal_reads_back, parse_decimal_round_trip};
use crate::text::{parse_u32, parse_unsigned_spec, str_eq};

verus! {

/// First index at or after `from` holding `c`, or `s.len()` when there is none.
pub open spec fn find_from(s: Seq<char>, c: char, from: int) -> int
    decreases s.len() - from,
{
    if from >= s.len() {
        s.len() as int
    } else if s[from] == c {
        from
    } else {
        find_from(s, c, from + 1)
    }
}

proof fn lemma_find_from_bounds(s: Seq<char>, c: char, from: int)
    requires
        0 <= from,
    ensures
        from <= find_from(s, c, from) || (from > s.len() && find_from(s, c, from) == s.len()),
        find_from(s, c, from) <= s.len() || from > s.len(),
        find_from(s, c, from) < s.len() ==> s[find_from(s, c, from)] == c,
        forall|j: int| from <= j < find_from(s, c, from) && j < s.len() ==> s[j] != c,
    decreases s.len() - from,
{
    if from < s.len() && s[from] != c {
        lemma_find_from_bounds(s, c, from + 1);
    }
}

/// Index of the first `c` in `s` at or after `from`, or `s.len()`.
fn find_char(s: &str, c: char, from: usize) -> (r: usize)
    requires
        from <= s@.len(),
    ensures
        r as int == find_from(s@, c, from as int),
{
    let n = s.unicode_len();
    let mut i = from;
    while i < n
        invariant
            from <= i <= n,
            n == s@.len(),
            find_from(s@, c, from as int) == find_from(s@, c, i as int),
        decreases n - i,
    {
        if s.get_char(i) == c {
            return i;
        }
        i += 1;
    }
    i
}

/// The three dot-separated `u32` components of a version, if that is what
/// `t` is.
pub open spec fn version_spec(t: Seq<char>) -> Option<MpdVersion> {
    let d1 = find_from(t, '.', 0);
    let d2 = find_from(t, '.', d1 + 1);
    let a = t.subrange(0, d1);
    let b = t.subrange(d1 + 1, d2);
    let c = t.subrange(d2 + 1, t.len() as int);
    if d1 < t.len() && d2 < t.len() && find_from(t, '.', d2 + 1) == t.len() {
        let x = parse_unsigned_spec(a, u32::MAX as nat);
        let y = parse_unsigned_spec(b, u32::MAX as nat);
        let z = parse_unsigned_spec(c, u32::MAX as nat);
        if x is Some && y is Some && z is Some {
            Some(
                MpdVersion { major: x->0 as u32, minor: y->0 as u32, patch: z->0 as u32 },
            )
        } else {
            None
        }
    } else {
        None
    }
}

pub open spec fn welcome_prefix() -> Seq<char> {
    seq!['O', 'K', ' ', 'M', 'P', 'D', ' ']
}

/// The welcome banner `OK MPD <major>.<minor>.<patch>`.
pub open spec fn welcome_spec(line: Seq<char>) -> Result<MpdVersion, ProtocolErrorV> {
    if line.len() >= 7 && line.take(7) == welcome_prefix() {
        let rest = line.skip(7);
        match version_spec(rest) {
            Some(v) => Ok(v),
            None => Err(ProtocolErrorV::BadVersion(rest)),
        }
    } else {
        Err(ProtocolErrorV::BadWelcome(line))
    }
}

pub open spec fn version_result_view(r: Result<MpdVersion, MpdError>) -> Result<
    MpdVersion,
    MpdErrorV,
> {
    match r {
        Ok(v) => Ok(v),
        Err(e) => Err(e@),
    }
}

fn starts_with_chars(s: &str, prefix: &str) -> (r: bool)
    ensures
        r == (s@.len() >= prefix@.len() && s@.take(prefix@.len() as int) == prefix@),
{
    let n = s.unicode_len();
    let m = prefix.unicode_len();
    if n < m {
        return false;
    }
    let mut i: usize = 0;
    while i < m
        invariant
            i <= m,
            m == prefix@.len(),
            n == s@.len(),
            m <= n,
            forall|j: int| 0 <= j < i ==> s@[j] == prefix@[j],
        decreases m - i,
    {
        if s.get_char(i) != prefix.get_char(i) {
            assert(s@.take(m as int)[i as int] != prefix@[i as int]);
            return false;
        }
        i += 1;
    }
    assert(s@.take(m as int) =~= prefix@);
    true
}

fn parse_version(t: &str) -> (r: Option<MpdVersion>)
    ensures
        r == version_spec(t@),
{
    let n = t.unicode_len();
    let d1 = find_char(t, '.', 0);
    if d1 >= n {
        return None;
    }
    let d2 = find_char(t, '.', d1 + 1);
    if d2 >= n {
        return None;
    }
    let d3 = find_char(t, '.', d2 + 1);
    if d3 < n {
        return None;
    }
    proof {
        lemma_find_from_bounds(t@, '.', 0);
        lemma_find_from_bounds(t@, '.', d1 + 1);
        lemma_find_from_bounds(t@, '.', d2 + 1);
    }
    let a = t.substring_char(0, d1);
    let b = t.substring_char(d1 + 1, d2);
    let c = t.substring_char(d2 + 1, n);
    let x = parse_u32(a);
    let y = parse_u32(b);
    let z = parse_u32(c);
    if x.is_some() && y.is_some() && z.is_some() {
        Some(MpdVersion::new(x.unwrap(), y.unwrap(), z.unwrap()))
    } else {
        None
    }
}

/// Reads the welcome banner MPD sends on connect.
pub fn parse_welcome(line: &str) -> (r: Result<MpdVersion, MpdError>)
    ensures
        version_result_view(r) == lift_protocol(welcome_spec(line@)),
{
    proof {
        reveal_strlit("OK MPD ");
        assert("OK MPD "@ =~= welcome_prefix());
    }
    let n = line.unicode_len();
    if !starts_with_chars(line, "OK MPD ") {
        assert(!(line@.len() >= 7 && line@.take(7) == welcome_prefix()));
        return Err(MpdError::Protocol(ProtocolError::BadWelcome(line.to_owned())));
    }
    let rest = line.substring_char(7, n);
    assert(rest@ =~= line@.skip(7));
    match parse_version(rest) {
        Some(v) => Ok(v),
        None => Err(MpdError::Protocol(ProtocolError::BadVersion(rest.to_owned()))),
    }
}


/// First index `k` at or after `from` where `s` holds `": "`, or `s.len()`.
pub open spec fn find_sep(s: Seq<char>, from: int) -> int
    decreases s.len() - from,
{
    if from + 1 >= s.len() {
        s.len() as int
    } else if s[from] == ':' && s[from + 1] == ' ' {
        from
    } else {
        find_sep(s, from + 1)
    }
}

proof fn lemma_find_sep_bounds(s: Seq<char>, from: int)
    requires
        0 <= from,
    ensures
        find_sep(s, from) == s.len() || (from <= find_sep(s, from) && find_sep(s, from) + 1
            < s.len() && s[find_sep(s, from)] == ':' && s[find_sep(s, from) + 1] == ' '),
    decreases s.len() - from,
{
    if from + 1 < s.len() && !(s[from] == ':' && s[from + 1] == ' ') {
        lemma_find_sep_bounds(s, from + 1);
    }
}

fn find_separator(s: &str) -> (r: usize)
    ensures
        r as int == find_sep(s@, 0),
{
    let n = s.unicode_len();
    let mut i: usize = 0;
    while i < n && i + 1 < n
        invariant
            i <= n,
            n == s@.len(),
            find_sep(s@, 0) == find_sep(s@, i as int),
        decreases n - i,
    {
        if s.get_char(i) == ':' && s.get_char(i + 1) == ' ' {
            return i;
        }
        i += 1;
    }
    n
}

/// An `ACK` line's parts.
pub struct AckV {
    pub code: u32,
    pub list_position: u32,
    pub command: Seq<char>,
    pub message: Seq<char>,
}

pub open spec fn ack_prefix() -> Seq<char> {
    seq!['A', 'C', 'K', ' ', '[']
}

/// `ACK [<code>@<position>] {<command>} <message>`.
pub open spec fn ack_spec(line: Seq<char>) -> Option<AckV> {
    let at = find_from(line, '@', 5);
    let close = find_from(line, ']', at + 1);
    let brace = close + 2;
    let end = find_from(line, '}', brace + 1);
    let code = parse_unsigned_spec(line.subrange(5, at), u32::MAX as nat);
    let pos = parse_unsigned_spec(line.subrange(at + 1, close), u32::MAX as nat);
    if line.len() >= 5 && line.take(5) == ack_prefix() && at < line.len() && close < line.len()
        && brace < line.len() && line[close + 1] == ' ' && line[brace] == '{' && end < line.len()
        && code is Some && pos is Some {
        Some(
            AckV {
                code: code->0 as u32,
                list_position: pos->0 as u32,
                command: line.subrange(brace + 1, end),
                message: if end + 1 < line.len() && line[end + 1] == ' ' {
                    line.skip(end + 2)
                } else {
                    line.skip(end + 1)
                },
            },
        )
    } else {
        None
    }
}

/// A response line, classified.
#[derive(Debug)]
pub enum ClassifiedLine {
    /// `OK`: the response is complete.
    Complete,
    /// `ACK ...`: MPD rejected the command.
    Ack { code: u32, list_position: u32, command: String, message: String },
    /// `key: value`: one field of the response body.
    Field(Field),
}

pub enum ClassifiedV {
    Complete,
    Ack(AckV),
    Field(Seq<char>, Seq<char>),
}

impl View for ClassifiedLine {
    type V = ClassifiedV;

    open spec fn view(&self) -> ClassifiedV {
        match self {
            ClassifiedLine::Complete => ClassifiedV::Complete,
            ClassifiedLine::Ack { code, list_position, command, message } => ClassifiedV::Ack(
                AckV { code: *code, list_position: *list_position, command: command@, message: message@ },
            ),
            ClassifiedLine::Field(f) => ClassifiedV::Field(f.key@, f.value@),
        }
    }
}

pub open spec fn ack_word() -> Seq<char> {
    seq!['A', 'C', 'K', ' ']
}

/// How a response line reads.
pub open spec fn classify_spec(line: Seq<char>) -> Result<ClassifiedV, ProtocolErrorV> {
    if line == seq!['O', 'K'] {
        Ok(ClassifiedV::Complete)
    } else if line.len() >= 4 && line.take(4) == ack_word() {
        match ack_spec(line) {
            Some(a) => Ok(ClassifiedV::Ack(a)),
            None => Err(ProtocolErrorV::MalformedAck(line)),
        }
    } else if find_sep(line, 0) < line.len() {
        let k = find_sep(line, 0);
        Ok(ClassifiedV::Field(line.take(k), line.skip(k + 2)))
    } else {
        Err(ProtocolErrorV::MalformedLine(line))
    }
}

pub open spec fn classified_result_view(r: Result<ClassifiedLine, MpdError>) -> Result<
    ClassifiedV,
    MpdErrorV,
> {
    match r {
        Ok(c) => Ok(c@),
        Err(e) => Err(e@),
    }
}

fn parse_ack(line: &str) -> (r: Option<ClassifiedLine>)
    ensures
        match ack_spec(line@) {
            Some(a) => r matches Some(c) && c@ == ClassifiedV::Ack(a),
            None => r is None,
        },
{
    proof {
        reveal_strlit("ACK [");
        assert("ACK ["@ =~= ack_prefix());
    }
    let n = line.unicode_len();
    if !starts_with_chars(line, "ACK [") {
        return None;
    }
    let at = find_char(line, '@', 5);
    proof {
        lemma_find_from_bounds(line@, '@', 5);
    }
    if at >= n {
        return None;
    }
    let close = find_char(line, ']', at + 1);
    proof {
        lemma_find_from_bounds(line@, ']', at + 1);
    }
    if close >= n || n - close <= 2 {
        return None;
    }
    if line.get_char(close + 1) != ' ' || line.get_char(close + 2) != '{' {
        return None;
    }
    let brace = close + 2;
    let end = find_char(line, '}', brace + 1);
    proof {
        lemma_find_from_bounds(line@, '}', brace + 1);
    }
    if end >= n {
        return None;
    }
    let code = parse_u32(line.substring_char(5, at));
    let pos = parse_u32(line.substring_char(at + 1, close));
    if code.is_none() || pos.is_none() {
        return None;
    }
    let command = line.substring_char(brace + 1, end).to_owned();
    let message = if end + 1 < n && line.get_char(end + 1) == ' ' {
        line.substring_char(end + 2, n).to_owned()
    } else {
        line.substring_char(end + 1, n).to_owned()
    };
    proof {
        assert(message@ =~= (if end + 1 < line@.len() && line@[end + 1] == ' ' {
            line@.skip(end + 2)
        } else {
            line@.skip(end + 1)
        }));
    }
    Some(
        ClassifiedLine::Ack {
            code: code.unwrap(),
            list_position: pos.unwrap(),
            command,
            message,
        },
    )
}

/// Classifies one response line.
pub fn classify_line(line: &str) -> (r: Result<ClassifiedLine, MpdError>)
    ensures
        classified_result_view(r) == lift_protocol(classify_spec(line@)),
{
    proof {
        reveal_strlit("OK");
        reveal_strlit("ACK ");
        assert("OK"@ =~= seq!['O', 'K']);
        assert("ACK "@ =~= ack_word());
    }
    if str_eq(line, "OK") {
        return Ok(ClassifiedLine::Complete);
    }
    if starts_with_chars(line, "ACK ") {
        return match parse_ack(line) {
            Some(c) => Ok(c),
            None => Err(MpdError::Protocol(ProtocolError::MalformedAck(line.to_owned()))),
        };
    }
    let n = line.unicode_len();
    let k = find_separator(line);
    proof {
        lemma_find_sep_bounds(line@, 0);
    }
    if k < n {
        let key = line.substring_char(0, k).to_owned();
        let value = line.substring_char(k + 2, n).to_owned();
        assert(key@ =~= line@.take(k as int));
        assert(value@ =~= line@.skip(k + 2));
        Ok(ClassifiedLine::Field(Field { key, value }))
    } else {
        Err(MpdError::Protocol(ProtocolError::MalformedLine(line.to_owned())))
    }
}


/// What one response line does to the response being read.
#[derive(Debug)]
pub enum LineOutcome {
    /// A field was added to the body; keep reading.
    More,
    /// `OK`: the body is complete.
    Complete,
    /// The command failed (an `ACK`, or a line that breaks the protocol).
    Failed(MpdError),
}

/// Reads one response line into `body`, the fields received so far.
pub fn absorb_line(body: &mut Vec<Field>, line: &str) -> (r: LineOutcome)
    ensures
        match classify_spec(line@) {
            Ok(ClassifiedV::Complete) => r is Complete && final(body)@ == old(body)@,
            Ok(ClassifiedV::Ack(a)) => final(body)@ == old(body)@ && (r matches LineOutcome::Failed(
                e,
            ) && e@ == MpdErrorV::Ack {
                code: a.code,
                list_position: a.list_position,
                command: a.command,
                message: a.message,
            }),
            Ok(ClassifiedV::Field(k, v)) => r is More && fields_view(final(body)@) == fields_view(
                old(body)@,
            ).push((k, v)),
            Err(p) => final(body)@ == old(body)@ && (r matches LineOutcome::Failed(e) && e@
                == MpdErrorV::Protocol(p)),
        },
{
    match classify_line(line) {
        Ok(ClassifiedLine::Complete) => LineOutcome::Complete,
        Ok(ClassifiedLine::Ack { code, list_position, command, message }) => LineOutcome::Failed(
            MpdError::Ack { code, list_position, command, message },
        ),
        Ok(ClassifiedLine::Field(f)) => {
            body.push(f);
            assert(fields_view(body@) =~= fields_view(old(body)@).push(f@));
            LineOutcome::More
        },
        Err(e) => LineOutcome::Failed(e),
    }
}

/// A command name MPD can read: non-empty, no blanks, line breaks or quotes.
pub open spec fn valid_command_name(c: Seq<char>) -> bool {
    c.len() > 0 && forall|i: int|
        0 <= i < c.len() ==> #[trigger] c[i] != ' ' && c[i] != '\t' && c[i] != '\n' && c[i]
            != '\r' && c[i] != '"'
}

/// An argument that fits on one protocol line.
pub open spec fn valid_arg(a: Seq<char>) -> bool {
    forall|i: int| 0 <= i < a.len() ==> #[trigger] a[i] != '\n' && a[i] != '\r'
}

/// `a` with every `"` and `\` preceded by a backslash.
pub open spec fn escaped(a: Seq<char>) -> Seq<char>
    decreases a.len(),
{
    if a.len() == 0 {
        seq![]
    } else if a.last() == '"' || a.last() == '\\' {
        escaped(a.drop_last()) + seq!['\\', a.last()]
    } else {
        escaped(a.drop_last()).push(a.last())
    }
}

/// Each argument as ` "<escaped>"`.
pub open spec fn args_text(args: Seq<Seq<char>>) -> Seq<char>
    decreases args.len(),
{
    if args.len() == 0 {
        seq![]
    } else {
        args_text(args.drop_last()) + seq![' ', '"'] + escaped(args.last()) + seq!['"']
    }
}

/// The first argument that does not fit on a line, if any.
pub open spec fn first_invalid_arg(args: Seq<Seq<char>>) -> Option<Seq<char>>
    decreases args.len(),
{
    if args.len() == 0 {
        None
    } else {
        match first_invalid_arg(args.drop_last()) {
            Some(a) => Some(a),
            None => if valid_arg(args.last()) {
                None
            } else {
                Some(args.last())
            },
        }
    }
}

pub open spec fn strings_view(v: Seq<String>) -> Seq<Seq<char>> {
    v.map_values(|s: String| s@)
}

/// The bytes of one command line, or why there are none.
pub open spec fn command_line_spec(command: Seq<char>, args: Seq<Seq<char>>) -> Result<
    Seq<u8>,
    ProtocolErrorV,
> {
    if !valid_command_name(command) {
        Err(ProtocolErrorV::InvalidCommand(command))
    } else {
        match first_invalid_arg(args) {
            Some(a) => Err(ProtocolErrorV::InvalidCommand(a)),
            None => Ok(encode_utf8(command + args_text(args) + seq!['\n'])),
        }
    }
}

pub open spec fn bytes_result_view(r: Result<Vec<u8>, MpdError>) -> Result<Seq<u8>, MpdErrorV> {
    match r {
        Ok(b) => Ok(b@),
        Err(e) => Err(e@),
    }
}

fn check_command_name(c: &str) -> (r: bool)
    ensures
        r == valid_command_name(c@),
{
    let n = c.unicode_len();
    if n == 0 {
        return false;
    }
    let mut i: usize = 0;
    while i < n
        invariant
            i <= n,
            n == c@.len(),
            forall|j: int|
                0 <= j < i ==> #[trigger] c@[j] != ' ' && c@[j] != '\t' && c@[j] != '\n' && c@[j]
                    != '\r' && c@[j] != '"',
        decreases n - i,
    {
        let ch = c.get_char(i);
        if ch == ' ' || ch == '\t' || ch == '\n' || ch == '\r' || ch == '"' {
            return false;
        }
        i += 1;
    }
    true
}

fn check_arg(a: &str) -> (r: bool)
    ensures
        r == valid_arg(a@),
{
    let n = a.unicode_len();
    let mut i: usize = 0;
    while i < n
        invariant
            i <= n,
            n == a@.len(),
            forall|j: int| 0 <= j < i ==> #[trigger] a@[j] != '\n' && a@[j] != '\r',
        decreases n - i,
    {
        let ch = a.get_char(i);
        if ch == '\n' || ch == '\r' {
            return false;
        }
        i += 1;
    }
    true
}

/// Appends ` "<escaped arg>"` to `out`.
fn push_quoted(out: &mut String, a: &str)
    ensures
        final(out)@ == old(out)@ + seq![' ', '"'] + escaped(a@) + seq!['"'],
{
    push_char(out, ' ');
    push_char(out, '"');
    let ghost start = out@;
    let n = a.unicode_len();
    let mut i: usize = 0;
    while i < n
        invariant
            i <= n,
            n == a@.len(),
            out@ == start + escaped(a@.take(i as int)),
        decreases n - i,
    {
        let ch = a.get_char(i);
        assert(a@.take(i + 1).drop_last() =~= a@.take(i as int));
        if ch == '"' || ch == '\\' {
            push_char(out, '\\');
        }
        push_char(out, ch);
        proof {
            let t = a@.take(i + 1);
            assert(t.last() == ch);
            if ch == '"' || ch == '\\' {
                assert(escaped(t) == escaped(a@.take(i as int)) + seq!['\\', ch]);
            }
        }
        assert(out@ =~= start + escaped(a@.take(i + 1)));
        i += 1;
    }
    assert(a@.take(n as int) =~= a@);
    push_char(out, '"');
    assert(final(out)@ =~= old(out)@ + seq![' ', '"'] + escaped(a@) + seq!['"']);
}

/// The bytes MPD reads as `command` with `args`, each argument quoted.
pub fn serialise_command(command: &str, args: &[String]) -> (r: Result<Vec<u8>, MpdError>)
    ensures
        bytes_result_view(r) == lift_protocol(command_line_spec(command@, strings_view(args@))),
{
    let ghost av = strings_view(args@);
    if !check_command_name(command) {
        return Err(MpdError::Protocol(ProtocolError::InvalidCommand(command.to_owned())));
    }
    let n = args.len();
    let mut i: usize = 0;
    assert(av.take(0) =~= Seq::<Seq<char>>::empty());
    while i < n
        invariant
            i <= n,
            n == args@.len(),
            av == strings_view(args@),
            valid_command_name(command@),
            first_invalid_arg(av.take(i as int)) is None,
        decreases n - i,
    {
        assert(av.take(i + 1).drop_last() =~= av.take(i as int));
        assert(av.take(i + 1).last() == args@[i as int]@);
        if !check_arg(args[i].as_str()) {
            proof {
                assert(first_invalid_arg(av.take(i + 1)) == Some(args@[i as int]@));
                lemma_first_invalid_stays(av, i + 1);
            }
            let bad = args[i].clone();
            return Err(MpdError::Protocol(ProtocolError::InvalidCommand(bad)));
        }
        i += 1;
    }
    assert(av.take(n as int) =~= av);
    let mut line = command.to_owned();
    let mut j: usize = 0;
    assert(av.take(0) =~= Seq::<Seq<char>>::empty());
    while j < n
        invariant
            j <= n,
            n == args@.len(),
            av == strings_view(args@),
            first_invalid_arg(av) is None,
            valid_command_name(command@),
            line@ == command@ + args_text(av.take(j as int)),
        decreases n - j,
    {
        assert(av.take(j + 1).drop_last() =~= av.take(j as int));
        push_quoted(&mut line, args[j].as_str());
        assert(line@ =~= command@ + args_text(av.take(j + 1)));
        j += 1;
    }
    assert(av.take(n as int) =~= av);
    push_char(&mut line, '\n');
    let bytes = line.as_str().as_bytes_vec();
    assert(bytes@ == encode_utf8(line@));
    assert(line@ =~= command@ + args_text(av) + seq!['\n']);
    assert(command_line_spec(command@, av) == Ok::<Seq<u8>, ProtocolErrorV>(encode_utf8(line@)));
    Ok(bytes)
}

proof fn lemma_first_invalid_stays(av: Seq<Seq<char>>, k: int)
    requires
        0 <= k <= av.len(),
        first_invalid_arg(av.take(k)) is Some,
    ensures
        first_invalid_arg(av) == first_invalid_arg(av.take(k)),
    decreases av.len() - k,
{
    if k == av.len() {
        assert(av.take(k) =~= av);
    } else {
        assert(av.drop_last().take(k) =~= av.take(k));
        lemma_first_invalid_stays(av.drop_last(), k);
    }
}


proof fn lemma_find_at(s: Seq<char>, c: char, from: int, k: int)
    requires
        0 <= from <= k <= s.len(),
        forall|j: int| from <= j < k ==> s[j] != c,
        k < s.len() ==> s[k] == c,
    ensures
        find_from(s, c, from) == k,
    decreases k - from,
{
    if from < k {
        lemma_find_at(s, c, from + 1, k);
    }
}

/// The welcome banner MPD writes for a version reads back as that version:
/// `parse_welcome` inverts `OK MPD ` followed by `MpdVersion::to_string`.
pub proof fn welcome_reads_back_version(v: MpdVersion)
    ensures
        welcome_spec(welcome_prefix() + version_text(v)) == Ok::<MpdVersion, ProtocolErrorV>(v),
{
    let a = decimal(v.major as nat);
    let b = decimal(v.minor as nat);
    let c = decimal(v.patch as nat);
    decimal_reads_back(v.major as nat);
    decimal_reads_back(v.minor as nat);
    decimal_reads_back(v.patch as nat);
    let t = a + seq!['.'] + b + seq!['.'] + c;
    assert(version_text(v) == t);
    let line = welcome_prefix() + t;
    assert(line.take(7) =~= welcome_prefix());
    assert(line.skip(7) =~= t);
    let d1 = a.len() as int;
    let d2 = d1 + 1 + b.len();
    assert forall|j: int| 0 <= j < d1 implies t[j] != '.' by {
        assert(t[j] == a[j]);
        assert(crate::text::is_ascii_digit(a[j]));
    }
    assert(t[d1] == '.');
    lemma_find_at(t, '.', 0, d1);
    assert forall|j: int| d1 + 1 <= j < d2 implies t[j] != '.' by {
        assert(t[j] == b[j - d1 - 1]);
        assert(crate::text::is_ascii_digit(b[j - d1 - 1]));
    }
    assert(t[d2] == '.');
    lemma_find_at(t, '.', d1 + 1, d2);
    assert forall|j: int| d2 + 1 <= j < t.len() implies t[j] != '.' by {
        assert(t[j] == c[j - d2 - 1]);
        assert(crate::text::is_ascii_digit(c[j - d2 - 1]));
    }
    lemma_find_at(t, '.', d2 + 1, t.len() as int);
    assert(t.subrange(0, d1) =~= a);
    assert(t.subrange(d1 + 1, d2) =~= b);
    assert(t.subrange(d2 + 1, t.len() as int) =~= c);
    parse_decimal_round_trip(v.major as nat, u32::MAX as nat);
    parse_decimal_round_trip(v.minor as nat, u32::MAX as nat);
    parse_decimal_round_trip(v.patch as nat, u32::MAX as nat);
}


proof fn lemma_sep_at(s: Seq<char>, from: int, k: int)
    requires
        0 <= from <= k,
        k + 1 < s.len(),
        forall|j: int| from <= j < k ==> s[j] != ':',
        s[k] == ':' && s[k + 1] == ' ',
    ensures
        find_sep(s, from) == k,
    decreases k - from,
{
    if from < k {
        lemma_sep_at(s, from + 1, k);
    }
}

/// A field line `key: value` reads back as that key and value, for any key
/// without a colon that does not begin with `ACK `.
pub proof fn field_line_reads_back(key: Seq<char>, value: Seq<char>)
    requires
        forall|j: int| 0 <= j < key.len() ==> key[j] != ':',
        !(key.len() >= 4 && key.take(4) == ack_word()),
    ensures
        classify_spec(key + seq![':', ' '] + value) == Ok::<ClassifiedV, ProtocolErrorV>(
            ClassifiedV::Field(key, value),
        ),
{
    let line = key + seq![':', ' '] + value;
    let k = key.len() as int;
    assert(line[k] == ':');
    assert(line != seq!['O', 'K']) by {
        if line.len() == 2 {
            assert(k == 0);
            assert(line[0] == ':');
        }
    }
    if line.len() >= 4 && line.take(4) == ack_word() {
        if k >= 4 {
            assert(key.take(4) =~= line.take(4));
        } else {
            assert(line[k] == ack_word()[k]);
        }
    }
    assert forall|j: int| 0 <= j < k implies line[j] != ':' by {
        assert(line[j] == key[j]);
    }
    lemma_sep_at(line, 0, k);
    assert(line.take(k) =~= key);
    assert(line.skip(k + 2) =~= value);
}

proof fn lemma_escaped_single_line(a: Seq<char>)
    requires
        valid_arg(a),
    ensures
        forall|i: int| 0 <= i < escaped(a).len() ==> #[trigger] escaped(a)[i] != '\n',
    decreases a.len(),
{
    if a.len() > 0 {
        let p = a.drop_last();
        assert(valid_arg(p)) by {
            assert forall|i: int| 0 <= i < p.len() implies #[trigger] p[i] != '\n' && p[i] != '\r' by {
                assert(p[i] == a[i]);
            }
        }
        lemma_escaped_single_line(p);
        assert(a.last() == a[a.len() - 1]);
        let ep = escaped(p);
        let e = escaped(a);
        assert forall|i: int| 0 <= i < e.len() implies #[trigger] e[i] != '\n' by {
            if i < ep.len() {
                assert(e[i] == ep[i]);
            }
        }
    }
}

proof fn lemma_args_single_line(args: Seq<Seq<char>>)
    requires
        first_invalid_arg(args) is None,
    ensures
        forall|i: int| 0 <= i < args_text(args).len() ==> #[trigger] args_text(args)[i] != '\n',
    decreases args.len(),
{
    if args.len() > 0 {
        lemma_args_single_line(args.drop_last());
        lemma_escaped_single_line(args.last());
        let t = args_text(args);
        let p = args_text(args.drop_last());
        let e = escaped(args.last());
        assert(t == p + seq![' ', '"'] + e + seq!['"']);
        assert forall|i: int| 0 <= i < t.len() implies #[trigger] t[i] != '\n' by {
            if i < p.len() {
                assert(t[i] == p[i]);
            } else if i >= p.len() + 2 && i < p.len() + 2 + e.len() {
                assert(t[i] == e[i - p.len() - 2]);
            }
        }
    }
}

/// A serialised command is exactly one protocol line: its only line break
/// is the final one, whatever the arguments held.
pub proof fn command_is_one_line(command: Seq<char>, args: Seq<Seq<char>>)
    requires
        valid_command_name(command),
        first_invalid_arg(args) is None,
    ensures
        ({
            let text = command + args_text(args) + seq!['\n'];
            &&& command_line_spec(command, args) == Ok::<Seq<u8>, ProtocolErrorV>(encode_utf8(text))
            &&& text.last() == '\n'
            &&& forall|i: int| 0 <= i < text.len() - 1 ==> #[trigger] text[i] != '\n'
        }),
{
    lemma_args_single_line(args);
    let a = args_text(args);
    let text = command + a + seq!['\n'];
    assert forall|i: int| 0 <= i < text.len() - 1 implies #[trigger] text[i] != '\n' by {
        if i < command.len() {
            assert(text[i] == command[i]);
        } else {
            assert(text[i] == a[i - command.len()]);
        }
    }
}

}
