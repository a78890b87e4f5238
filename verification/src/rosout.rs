//! Log records received from the bus, and their rendering.
//!
//! A record carries a timestamp (signed seconds, unsigned nanoseconds), a
//! severity level, four text fields and a line number. Its wire image is the
//! little-endian encapsulation header, then seconds, nanoseconds and level,
//! then the four length-prefixed text fields (name, message, file, function)
//! and the line number, with every four-byte field aligned to four. The text
//! fields are kept as the raw bytes of the wire; the terminal shows them as
//! they came. A rendered record reads `[<sec>.<nanosec>] [<name>]: <msg>`.

use crate::wire::is_le_header;
use crate::wire::push_all;
use crate::wire::read_u32_le;
use crate::wire::read_string_at;
use crate::wire::read_u32_at;
use crate::wire::spec_read_string;
use crate::wire::spec_read_u32;
use vstd::bytes::*;
use vstd::prelude::*;

verus! {

/// One log record, as decoded from the bus.
#[derive(PartialEq, Eq, Debug)]
pub struct LogRecord {
    /// Seconds of the timestamp.
    pub sec: i32,
    /// Nanoseconds of the timestamp.
    pub nanosec: u32,
    /// Severity level.
    pub level: u8,
    /// Name of the source, as raw bytes.
    pub name: Vec<u8>,
    /// The message text, as raw bytes.
    pub msg: Vec<u8>,
    /// Originating file, as raw bytes.
    pub file: Vec<u8>,
    /// Originating function, as raw bytes.
    pub function: Vec<u8>,
    /// Originating line number.
    pub line: u32,
}

/// Mathematical image of a record: the same fields over sequences.
pub ghost struct LogRecordView {
    pub sec: i32,
    pub nanosec: u32,
    pub level: u8,
    pub name: Seq<u8>,
    pub msg: Seq<u8>,
    pub file: Seq<u8>,
    pub function: Seq<u8>,
    pub line: u32,
}

impl View for LogRecord {
    type V = LogRecordView;

    open spec fn view(&self) -> LogRecordView {
        LogRecordView {
            sec: self.sec,
            nanosec: self.nanosec,
            level: self.level,
            name: self.name@,
            msg: self.msg@,
            file: self.file@,
            function: self.function@,
            line: self.line,
        }
    }
}

/// The signed 32-bit value whose two's-complement bit pattern is `u`.
pub open spec fn spec_i32_of_bits(u: u32) -> i32 {
    if u < 0x8000_0000 {
        u as i32
    } else {
        (u - 0x1_0000_0000) as i32
    }
}

/// A record read from a buffer: the little-endian header, seconds,
/// nanoseconds and level at fixed offsets, then the four text fields and the
/// line number in sequence. Bytes behind the line number are ignored, as the
/// codec never reads them.
pub open spec fn spec_decode_log(s: Seq<u8>) -> Option<LogRecordView> {
    if !is_le_header(s) || s.len() < 13 {
        None
    } else {
        let sec = spec_i32_of_bits(spec_u32_from_le_bytes(s.subrange(4, 8)));
        let nanosec = spec_u32_from_le_bytes(s.subrange(8, 12));
        let level = s[12];
        match spec_read_string(s, 13) {
            None => None,
            Some((name, p1)) => match spec_read_string(s, p1) {
                None => None,
                Some((msg, p2)) => match spec_read_string(s, p2) {
                    None => None,
                    Some((file, p3)) => match spec_read_string(s, p3) {
                        None => None,
                        Some((function, p4)) => match spec_read_u32(s, p4) {
                            None => None,
                            Some((line, _p5)) => Some(
                                LogRecordView {
                                    sec,
                                    nanosec,
                                    level,
                                    name,
                                    msg,
                                    file,
                                    function,
                                    line,
                                },
                            ),
                        },
                    },
                },
            },
        }
    }
}

/// Decodes a record's wire image. Succeeds exactly on the buffers that the
/// wire image spells out; a truncated or foreign buffer yields nothing.
pub fn decode_log(bytes: &[u8]) -> (r: Option<LogRecord>)
    ensures
        r matches Some(rec) ==> spec_decode_log(bytes@) == Some(rec@),
        r is None ==> spec_decode_log(bytes@) is None,
{
    let len = bytes.len();
    if len < 13 {
        return None;
    }
    let id = bytes[1];
    if !(id == 1 || id == 3) {
        return None;
    }
    let sec_bits = read_u32_le(bytes, 4);
    let sec: i32 = if sec_bits < 0x8000_0000u32 {
        sec_bits as i32
    } else {
        ((sec_bits as i64) - 0x1_0000_0000i64) as i32
    };
    let nanosec = read_u32_le(bytes, 8);
    let level = bytes[12];
    let (name, p1) = match read_string_at(bytes, 13) {
        Some(x) => x,
        None => {
            return None;
        },
    };
    let (msg, p2) = match read_string_at(bytes, p1) {
        Some(x) => x,
        None => {
            return None;
        },
    };
    let (file, p3) = match read_string_at(bytes, p2) {
        Some(x) => x,
        None => {
            return None;
        },
    };
    let (function, p4) = match read_string_at(bytes, p3) {
        Some(x) => x,
        None => {
            return None;
        },
    };
    let (line, _p5) = match read_u32_at(bytes, p4) {
        Some(x) => x,
        None => {
            return None;
        },
    };
    Some(LogRecord { sec, nanosec, level, name, msg, file, function, line })
}

/// Decimal digits of `n`, most significant first, in ASCII.
pub open spec fn spec_dec(n: nat) -> Seq<u8>
    decreases n,
{
    if n < 10 {
        seq![(48 + n) as u8]
    } else {
        spec_dec(n / 10).push((48 + n % 10) as u8)
    }
}

/// Decimal rendering of a signed value: a minus sign before the digits of
/// the magnitude when it is negative.
pub open spec fn spec_dec_i32(v: i32) -> Seq<u8> {
    if v >= 0 {
        spec_dec(v as nat)
    } else {
        seq![45u8] + spec_dec((-(v as int)) as nat)
    }
}

/// The rendered line `[<sec>.<nanosec>] [<name>]: <msg>`, in ASCII bytes.
pub open spec fn spec_render_log(v: LogRecordView) -> Seq<u8> {
    seq![91u8] + spec_dec_i32(v.sec) + seq![46u8] + spec_dec(v.nanosec as nat) + seq![
        93u8,
        32u8,
        91u8,
    ] + v.name + seq![93u8, 58u8, 32u8] + v.msg
}

/// Renders the decimal digits of `n`.
pub fn u32_dec(n: u32) -> (out: Vec<u8>)
    ensures
        out@ == spec_dec(n as nat),
{
    let mut digits: Vec<u8> = Vec::new();
    let mut m: u32 = n;
    proof {
        assert(spec_dec(n as nat) + Seq::<u8>::empty() =~= spec_dec(n as nat));
    }
    loop
        invariant_except_break
            spec_dec(n as nat) == spec_dec(m as nat) + digits@,
        ensures
            spec_dec(n as nat) == digits@,
        decreases m,
    {
        let ghost old_digits = digits@;
        let d: u8 = (m % 10) as u8 + 48;
        digits.insert(0, d);
        proof {
            assert(digits@ =~= seq![d] + old_digits);
            if m >= 10 {
                assert(spec_dec((m / 10) as nat) + (seq![d] + old_digits) =~= spec_dec(
                    (m / 10) as nat,
                ).push(d) + old_digits);
                assert(spec_dec(m as nat) == spec_dec((m / 10) as nat).push(d));
            } else {
                assert(spec_dec(m as nat) =~= seq![d]);
                assert(spec_dec(m as nat) + old_digits =~= seq![d] + old_digits);
            }
        }
        m = m / 10;
        if m == 0 {
            break ;
        }
    }
    digits
}

/// Renders the decimal digits of `v`, sign included.
pub fn i32_dec(v: i32) -> (out: Vec<u8>)
    ensures
        out@ == spec_dec_i32(v),
{
    if v >= 0 {
        u32_dec(v as u32)
    } else {
        let mag: u32 = (-(v as i64)) as u32;
        let mut out: Vec<u8> = Vec::new();
        out.push(45);
        let digits = u32_dec(mag);
        push_all(&mut out, digits.as_slice());
        proof {
            assert(out@ =~= spec_dec_i32(v));
        }
        out
    }
}

/// Renders one record as the line the terminal shows.
pub fn render_log(rec: &LogRecord) -> (out: Vec<u8>)
    ensures
        out@ == spec_render_log(rec@),
{
    let mut out: Vec<u8> = Vec::new();
    out.push(91);
    let sec = i32_dec(rec.sec);
    push_all(&mut out, sec.as_slice());
    out.push(46);
    let nanos = u32_dec(rec.nanosec);
    push_all(&mut out, nanos.as_slice());
    out.push(93);
    out.push(32);
    out.push(91);
    push_all(&mut out, rec.name.as_slice());
    out.push(93);
    out.push(58);
    out.push(32);
    push_all(&mut out, rec.msg.as_slice());
    proof {
        assert(out@ =~= spec_render_log(rec@));
    }
    out
}

} // verus!
