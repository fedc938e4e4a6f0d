//! Splitting the byte stream from MPD into response lines.
use vstd::prelude::*;

use vstd::utf8::{decode_utf8, valid_utf8};

use crate::mpd_error::{MpdError, MpdErrorV, ProtocolError, ProtocolErrorV, TransportError, TransportErrorV};
use crate::requests::utf8_text;

verus! {

/// Longest response line accepted, in bytes, without its newline.
pub const MAX_LINE_BYTES: usize = 65536;

/// Index of the first newline byte in `b`, or `b.len()`.
pub open spec fn newline_index(b: Seq<u8>, from: int) -> int
    decreases b.len() - from,
{
    if from >= b.len() {
        b.len() as int
    } else if b[from] == 10 {
        from
    } else {
        newline_index(b, from + 1)
    }
}

proof fn lemma_newline_index(b: Seq<u8>, from: int)
    requires
        0 <= from <= b.len(),
    ensures
        from <= newline_index(b, from) <= b.len(),
        newline_index(b, from) < b.len() ==> b[newline_index(b, from)] == 10,
    decreases b.len() - from,
{
    if from < b.len() && b[from] != 10 {
        lemma_newline_index(b, from + 1);
    }
}

/// What the bytes received so far hold.
#[derive(Debug)]
pub enum FrameScan {
    /// No complete line yet; read more.
    Incomplete,
    /// A line, and how many bytes (with its newline) it used.
    Line { text: String, consumed: usize },
    /// The line is longer than the limit.
    TooLong,
    /// The line is not UTF-8.
    NotUtf8,
}

pub enum FrameScanV {
    Incomplete,
    Line(Seq<char>, nat),
    TooLong,
    NotUtf8,
}

pub open spec fn frame_view(f: FrameScan) -> FrameScanV {
    match f {
        FrameScan::Incomplete => FrameScanV::Incomplete,
        FrameScan::Line { text, consumed } => FrameScanV::Line(text@, consumed as nat),
        FrameScan::TooLong => FrameScanV::TooLong,
        FrameScan::NotUtf8 => FrameScanV::NotUtf8,
    }
}

pub open spec fn scan_spec(b: Seq<u8>, limit: nat) -> FrameScanV {
    let k = newline_index(b, 0);
    if k == b.len() {
        if b.len() > limit {
            FrameScanV::TooLong
        } else {
            FrameScanV::Incomplete
        }
    } else if k > limit {
        FrameScanV::TooLong
    } else if valid_utf8(b.take(k)) {
        FrameScanV::Line(decode_utf8(b.take(k)), (k + 1) as nat)
    } else {
        FrameScanV::NotUtf8
    }
}

/// Looks for the first complete line in `buf`.
pub fn scan_line(buf: &[u8], limit: usize) -> (r: FrameScan)
    ensures
        frame_view(r) == scan_spec(buf@, limit as nat),
{
    let n = buf.len();
    let mut k: usize = 0;
    while k < n && buf[k] != 10u8
        invariant
            k <= n,
            n == buf@.len(),
            newline_index(buf@, 0) == newline_index(buf@, k as int),
        decreases n - k,
    {
        k += 1;
    }
    proof {
        lemma_newline_index(buf@, k as int);
        if k < n {
            assert(newline_index(buf@, k as int) == k);
        }
    }
    if k == n {
        if n > limit {
            return FrameScan::TooLong;
        }
        return FrameScan::Incomplete;
    }
    if k > limit {
        return FrameScan::TooLong;
    }
    let line = &buf[0..k];
    assert(line@ =~= buf@.take(k as int));
    match utf8_text(line) {
        Ok(text) => FrameScan::Line { text, consumed: k + 1 },
        Err(_) => FrameScan::NotUtf8,
    }
}

/// The failure for a line over the limit.
pub fn line_too_long(limit: usize) -> (e: MpdError)
    ensures
        e@ == MpdErrorV::Transport(TransportErrorV::LineTooLong { limit }),
{
    MpdError::Transport(TransportError::LineTooLong { limit })
}

/// The failure for a line that is not UTF-8.
pub fn line_not_utf8() -> (e: MpdError)
    ensures
        e@ == MpdErrorV::Protocol(ProtocolErrorV::NotUtf8Line),
{
    MpdError::Protocol(ProtocolError::NotUtf8Line)
}

}
