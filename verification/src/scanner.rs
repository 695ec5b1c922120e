//! The section scanner: one forward pass over the stream, validating the
//! message envelope and producing the ordered section index.
//!
//! The grammar is stated once, as the recursive specification
//! [`spec_scan_from`]; the executable scanner is proved to return exactly
//! what the specification says, success and failure alike.

use vstd::prelude::*;
use crate::error::ParseError;
use crate::sections::{
    min_body_len, parse_body, spec_body_of, spec_indicator_body, IndicatorBody, SectionBody,
    SectionInfo,
};
use crate::wire::{be32, be64, read_u32, read_u64};

verus! {

/// Which section number may follow a section numbered `prev` inside one
/// message.  Repetition groups reopen at 2, 3 or 4 after a section 7;
/// the terminator (8) closes a message only after a section 7.
pub open spec fn allowed_next(prev: u8, num: u8) -> bool {
    match prev {
        0u8 => num == 1,
        1u8 => num == 2 || num == 3,
        2u8 => num == 3,
        3u8 => num == 4,
        4u8 => num == 5,
        5u8 => num == 6,
        6u8 => num == 7,
        7u8 => num == 2 || num == 3 || num == 4 || num == 8,
        _ => false,
    }
}

/// The sentinel "no section seen yet" state of the scanner.
pub const START_STATE: u8 = 255;

/// The full scan grammar.  `off` is the next unread byte, `prev` the number
/// of the last section consumed (`START_STATE` before the first message,
/// 8 right after a terminator), and `msg_end` the end offset the current
/// message declared in its indicator section.
///
/// The result is the index of all remaining sections, or the first
/// structural error the stream shows.
pub open spec fn spec_scan_from(buf: Seq<u8>, off: int, prev: u8, msg_end: int) -> Result<
    Seq<SectionInfo>,
    ParseError,
>
    decreases buf.len() - off,
{
    if off < 0 || off > buf.len() {
        // states the scanner never reaches
        Err(ParseError::TruncatedStream)
    } else if off == buf.len() {
        if prev == 8 {
            Ok(Seq::empty())
        } else {
            Err(ParseError::TruncatedStream)
        }
    } else if prev == START_STATE || prev == 8 {
        // a new message must start here with a 16-byte indicator section
        if buf.len() - off < 16 {
            Err(ParseError::TruncatedStream)
        } else if !(buf[off] == 0x47 && buf[off + 1] == 0x52 && buf[off + 2] == 0x49 && buf[off + 3]
            == 0x42) {
            Err(ParseError::NotGrib)
        } else if buf[off + 7] != 2 {
            Err(ParseError::GribVersionMismatch(buf[off + 7]))
        } else {
            let total = be64(buf, off + 8) as int;
            if total < 20 || off + total > buf.len() {
                Err(ParseError::TotalLengthMismatch)
            } else {
                let sec = SectionInfo {
                    num: 0,
                    offset: off as usize,
                    size: 16,
                    body: Some(SectionBody::Indicator(spec_indicator_body(buf, off))),
                };
                match spec_scan_from(buf, off + 16, 0, off + total) {
                    Ok(rest) => Ok(seq![sec] + rest),
                    Err(e) => Err(e),
                }
            }
        }
    } else {
        // inside a message
        if msg_end < off || msg_end > buf.len() {
            // states the scanner never reaches
            Err(ParseError::TruncatedStream)
        } else if msg_end - off == 4 {
            // only the terminator can close the message now
            if !(buf[off] == 0x37 && buf[off + 1] == 0x37 && buf[off + 2] == 0x37 && buf[off + 3]
                == 0x37) {
                Err(ParseError::MissingTerminator)
            } else if prev != 7 {
                Err(ParseError::InvalidSectionOrder(8))
            } else {
                let sec = SectionInfo { num: 8, offset: off as usize, size: 4, body: None };
                match spec_scan_from(buf, off + 4, 8, 0) {
                    Ok(rest) => Ok(seq![sec] + rest),
                    Err(e) => Err(e),
                }
            }
        } else if msg_end - off < 5 {
            Err(ParseError::InvalidSectionLength)
        } else {
            let size = be32(buf, off) as int;
            let num = buf[off + 4];
            if num < 1 || num > 7 {
                Err(ParseError::UnknownSectionNumber(num))
            } else if !allowed_next(prev, num) {
                Err(ParseError::InvalidSectionOrder(num))
            } else if size < 5 + min_body_len(num) || off + size + 4 > msg_end {
                Err(ParseError::InvalidSectionLength)
            } else {
                let sec = SectionInfo {
                    num,
                    offset: off as usize,
                    size: size as usize,
                    body: spec_body_of(num, buf, off + 5),
                };
                match spec_scan_from(buf, off + size, num, msg_end) {
                    Ok(rest) => Ok(seq![sec] + rest),
                    Err(e) => Err(e),
                }
            }
        }
    }
}

/// What a successful scan guarantees of each index entry: its span lies in
/// the stream, its size and number are the ones its header bytes declare,
/// and its body is the parse of its body bytes.
pub open spec fn wf_section(buf: Seq<u8>, s: SectionInfo) -> bool {
    if s.num == 0 {
        &&& s.size == 16
        &&& s.offset + 16 <= buf.len()
        &&& s.body == Some(SectionBody::Indicator(spec_indicator_body(buf, s.offset as int)))
    } else if s.num == 8 {
        &&& s.size == 4
        &&& s.offset + 4 <= buf.len()
        &&& buf[s.offset as int] == 0x37
        &&& buf[s.offset as int + 1] == 0x37
        &&& buf[s.offset as int + 2] == 0x37
        &&& buf[s.offset as int + 3] == 0x37
    } else {
        &&& 1 <= s.num <= 7
        &&& 5 + min_body_len(s.num) <= s.size
        &&& s.offset + s.size <= buf.len()
        &&& s.size == be32(buf, s.offset as int)
        &&& buf[s.offset as int + 4] == s.num
        &&& s.body == spec_body_of(s.num, buf, s.offset as int + 5)
    }
}

/// A successful scan yields a well-formed, contiguous index that covers the
/// stream from `off` to its end and closes with a terminator section.
pub proof fn lemma_scan_wf(buf: Seq<u8>, off: int, prev: u8, msg_end: int, ss: Seq<SectionInfo>)
    requires
        buf.len() <= usize::MAX,
        spec_scan_from(buf, off, prev, msg_end) == Ok::<Seq<SectionInfo>, ParseError>(ss),
    ensures
        forall|i: int| 0 <= i < ss.len() ==> #[trigger] wf_section(buf, ss[i]),
        ss.len() == 0 ==> off == buf.len(),
        ss.len() > 0 ==> ss[0].offset == off,
        forall|i: int|
            0 < i < ss.len() ==> (#[trigger] ss[i]).offset == ss[i - 1].offset + ss[i - 1].size,
        ss.len() > 0 ==> ss[ss.len() - 1].offset + ss[ss.len() - 1].size == buf.len(),
        prev != 8 ==> ss.len() > 0,
        ss.len() > 0 ==> ss[ss.len() - 1].num == 8,
    decreases buf.len() - off,
{
    if off < 0 || off > buf.len() {
    } else if off == buf.len() {
    } else if prev == START_STATE || prev == 8 {
        let total = be64(buf, off + 8) as int;
        let sec = SectionInfo {
            num: 0,
            offset: off as usize,
            size: 16,
            body: Some(SectionBody::Indicator(spec_indicator_body(buf, off))),
        };
        match spec_scan_from(buf, off + 16, 0, off + total) {
            Ok(rest) => {
                lemma_scan_wf(buf, off + 16, 0, off + total, rest);
                assert(ss == seq![sec] + rest);
                assert(ss[0] == sec);
                assert(forall|i: int| 0 < i < ss.len() ==> #[trigger] ss[i] == rest[i - 1]);
                assert(wf_section(buf, sec));
            },
            Err(_) => {},
        }
    } else {
        if msg_end < off || msg_end > buf.len() {
        } else if msg_end - off == 4 {
            let sec = SectionInfo { num: 8, offset: off as usize, size: 4, body: None };
            match spec_scan_from(buf, off + 4, 8, 0) {
                Ok(rest) => {
                    lemma_scan_wf(buf, off + 4, 8, 0, rest);
                    assert(ss == seq![sec] + rest);
                    assert(ss[0] == sec);
                    assert(forall|i: int| 0 < i < ss.len() ==> #[trigger] ss[i] == rest[i - 1]);
                    assert(wf_section(buf, sec));
                },
                Err(_) => {},
            }
        } else if msg_end - off < 5 {
        } else {
            let size = be32(buf, off) as int;
            let num = buf[off + 4];
            let sec = SectionInfo {
                num,
                offset: off as usize,
                size: size as usize,
                body: spec_body_of(num, buf, off + 5),
            };
            match spec_scan_from(buf, off + size, num, msg_end) {
                Ok(rest) => {
                    lemma_scan_wf(buf, off + size, num, msg_end, rest);
                    assert(ss == seq![sec] + rest);
                    assert(ss[0] == sec);
                    assert(forall|i: int| 0 < i < ss.len() ==> #[trigger] ss[i] == rest[i - 1]);
                    assert(wf_section(buf, sec));
                },
                Err(_) => {},
            }
        }
    }
}

/// The per-section guarantees of a whole-stream scan, in the narrow form
/// the decoders consume.
pub proof fn lemma_scan_sections_wf(buf: Seq<u8>, ss: Seq<SectionInfo>)
    requires
        buf.len() <= usize::MAX,
        spec_scan_from(buf, 0, START_STATE, 0) == Ok::<Seq<SectionInfo>, ParseError>(ss),
    ensures
        forall|i: int| 0 <= i < ss.len() ==> #[trigger] wf_section(buf, ss[i]),
        ss.len() > 0,
{
    lemma_scan_wf(buf, 0, START_STATE, 0, ss);
}

/// A stream scans successfully only if it closes with the terminal marker:
/// the last four bytes of the stream are the ASCII `7777` of a terminator
/// section.  A stream whose tail is anything else always scans to an error.
#[verifier::rlimit(50)]
pub proof fn lemma_scan_ends_with_terminator(buf: Seq<u8>, ss: Seq<SectionInfo>)
    requires
        buf.len() <= usize::MAX,
        spec_scan_from(buf, 0, START_STATE, 0) == Ok::<Seq<SectionInfo>, ParseError>(ss),
    ensures
        buf.len() >= 4,
        buf[buf.len() - 4] == 0x37,
        buf[buf.len() - 3] == 0x37,
        buf[buf.len() - 2] == 0x37,
        buf[buf.len() - 1] == 0x37,
{
    lemma_scan_wf(buf, 0, START_STATE, 0, ss);
    let last = ss[ss.len() - 1];
    assert(ss.len() > 0);
    assert(last.num == 8);
    assert(wf_section(buf, last));
    assert(last.offset + last.size == buf.len());
    assert(last.offset as int == buf.len() - 4);
}

fn allowed_next_ex(prev: u8, num: u8) -> (r: bool)
    ensures
        r == allowed_next(prev, num),
{
    match prev {
        0u8 => num == 1,
        1u8 => num == 2 || num == 3,
        2u8 => num == 3,
        3u8 => num == 4,
        4u8 => num == 5,
        5u8 => num == 6,
        6u8 => num == 7,
        7u8 => num == 2 || num == 3 || num == 4 || num == 8,
        _ => false,
    }
}

fn min_body_len_ex(num: u8) -> (r: usize)
    ensures
        r as int == min_body_len(num),
        r <= 16,
{
    match num {
        1u8 => 16,
        3u8 => 9,
        4u8 => 4,
        5u8 => 16,
        6u8 => 1,
        _ => 0,
    }
}

/// Scans the whole stream into its section index, or reports the first
/// structural error, exactly as [`spec_scan_from`] states.
pub fn scan(buf: &Vec<u8>) -> (r: Result<Vec<SectionInfo>, ParseError>)
    ensures
        match r {
            Ok(v) => spec_scan_from(buf@, 0, START_STATE, 0) == Ok::<Seq<SectionInfo>, ParseError>(
                v@,
            ),
            Err(e) => spec_scan_from(buf@, 0, START_STATE, 0) == Err::<
                Seq<SectionInfo>,
                ParseError,
            >(e),
        },
{
    let mut secs: Vec<SectionInfo> = Vec::new();
    let mut off: usize = 0;
    let mut prev: u8 = START_STATE;
    let mut msg_end: usize = 0;
    loop
        invariant
            off <= buf.len(),
            prev == START_STATE || prev <= 8,
            (prev != START_STATE && prev != 8) ==> off <= msg_end <= buf.len(),
            ({
                let full = spec_scan_from(buf@, 0, START_STATE, 0);
                match spec_scan_from(buf@, off as int, prev, msg_end as int) {
                    Ok(t) => full == Ok::<Seq<SectionInfo>, ParseError>(secs@ + t),
                    Err(e) => full == Err::<Seq<SectionInfo>, ParseError>(e),
                }
            }),
        decreases buf.len() - off,
    {
        let ghost full = spec_scan_from(buf@, 0, START_STATE, 0);
        let ghost pre = spec_scan_from(buf@, off as int, prev, msg_end as int);
        if off == buf.len() {
            if prev == 8 {
                proof {
                    assert(pre == Ok::<Seq<SectionInfo>, ParseError>(Seq::<SectionInfo>::empty()));
                    assert(secs@ + Seq::<SectionInfo>::empty() =~= secs@);
                }
                return Ok(secs);
            } else {
                return Err(ParseError::TruncatedStream);
            }
        } else if prev == START_STATE || prev == 8 {
            if buf.len() - off < 16 {
                return Err(ParseError::TruncatedStream);
            }
            if !(buf[off] == 0x47 && buf[off + 1] == 0x52 && buf[off + 2] == 0x49 && buf[off + 3]
                == 0x42) {
                return Err(ParseError::NotGrib);
            }
            let ver = buf[off + 7];
            if ver != 2 {
                return Err(ParseError::GribVersionMismatch(ver));
            }
            let total64 = read_u64(buf, off + 8);
            if total64 < 20 || total64 > (buf.len() - off) as u64 {
                return Err(ParseError::TotalLengthMismatch);
            }
            let total = total64 as usize;
            let ib = IndicatorBody { discipline: buf[off + 6], total_length: total64 };
            let sec = SectionInfo {
                num: 0,
                offset: off,
                size: 16,
                body: Some(SectionBody::Indicator(ib)),
            };
            proof {
                assert(ib == spec_indicator_body(buf@, off as int));
                let tail = spec_scan_from(buf@, off as int + 16, 0, off as int + total as int);
                match tail {
                    Ok(t) => {
                        assert(pre == Ok::<Seq<SectionInfo>, ParseError>(seq![sec] + t));
                        assert(secs@ + (seq![sec] + t) =~= secs@.push(sec) + t);
                    },
                    Err(_) => {},
                }
            }
            secs.push(sec);
            prev = 0;
            msg_end = off + total;
            off = off + 16;
        } else {
            // inside a message: the invariant gives off <= msg_end <= buf.len()
            if msg_end - off == 4 {
                if !(buf[off] == 0x37 && buf[off + 1] == 0x37 && buf[off + 2] == 0x37 && buf[off
                    + 3] == 0x37) {
                    return Err(ParseError::MissingTerminator);
                }
                if prev != 7 {
                    return Err(ParseError::InvalidSectionOrder(8));
                }
                let sec = SectionInfo { num: 8, offset: off, size: 4, body: None };
                proof {
                    let tail = spec_scan_from(buf@, off as int + 4, 8, 0);
                    match tail {
                        Ok(t) => {
                            assert(pre == Ok::<Seq<SectionInfo>, ParseError>(seq![sec] + t));
                            assert(secs@ + (seq![sec] + t) =~= secs@.push(sec) + t);
                        },
                        Err(_) => {},
                    }
                }
                secs.push(sec);
                prev = 8;
                off = off + 4;
                msg_end = 0;
            } else if msg_end - off < 5 {
                return Err(ParseError::InvalidSectionLength);
            } else {
                let size32 = read_u32(buf, off);
                let num = buf[off + 4];
                if num < 1 || num > 7 {
                    return Err(ParseError::UnknownSectionNumber(num));
                }
                if !allowed_next_ex(prev, num) {
                    return Err(ParseError::InvalidSectionOrder(num));
                }
                let minb = min_body_len_ex(num);
                if (size32 as u64) < 5 + minb as u64 || (size32 as u64) + 4 > (msg_end - off)
                    as u64 {
                    return Err(ParseError::InvalidSectionLength);
                }
                let size = size32 as usize;
                let body = parse_body(num, buf, off + 5);
                let sec = SectionInfo { num, offset: off, size, body };
                proof {
                    let tail = spec_scan_from(buf@, off as int + size as int, num, msg_end as int);
                    match tail {
                        Ok(t) => {
                            assert(pre == Ok::<Seq<SectionInfo>, ParseError>(seq![sec] + t));
                            assert(secs@ + (seq![sec] + t) =~= secs@.push(sec) + t);
                        },
                        Err(_) => {},
                    }
                }
                secs.push(sec);
                prev = num;
                off = off + size;
            }
        }
    }
}

} // verus!
