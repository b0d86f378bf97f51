//! `CFString`: encoding constants and their Foundation counterparts, the
//! byte encodings that `CFStringGetBytes` produces, and the conversions of
//! ranges between Core Foundation and Foundation.
use vstd::prelude::*;
use crate::frameworks::core_foundation::{kCFNotFound, CFIndex, CFRange};
use crate::frameworks::foundation::{NSNotFound, NSRange, NSUInteger};
use crate::mem::{u32_le_bytes, write_bytes, Mem};

verus! {

pub type CFStringEncoding = u32;
pub const kCFStringEncodingMacRoman: CFStringEncoding = 0;
pub const kCFStringEncodingASCII: CFStringEncoding = 0x600;
pub const kCFStringEncodingUTF8: CFStringEncoding = 0x800_0100;
pub const kCFStringEncodingUnicode: CFStringEncoding = 0x100;
pub const kCFStringEncodingUTF16: CFStringEncoding = 0x100;
pub const kCFStringEncodingUTF16BE: CFStringEncoding = 0x1000_0100;
pub const kCFStringEncodingUTF16LE: CFStringEncoding = 0x1400_0100;
pub const kCFStringEncodingISOLatin1: CFStringEncoding = 0x0201;

pub type NSStringEncoding = u32;
pub const NSASCIIStringEncoding: NSStringEncoding = 1;
pub const NSUTF8StringEncoding: NSStringEncoding = 4;
pub const NSISOLatin1StringEncoding: NSStringEncoding = 5;
pub const NSUTF16StringEncoding: NSStringEncoding = 10;
pub const NSMacOSRomanStringEncoding: NSStringEncoding = 30;
pub const NSUTF16BigEndianStringEncoding: NSStringEncoding = 0x9000_0100;
pub const NSUTF16LittleEndianStringEncoding: NSStringEncoding = 0x9400_0100;

/// The Foundation encoding for a Core Foundation encoding, for the ones the
/// emulator knows.
pub open spec fn ns_encoding_of(encoding: CFStringEncoding) -> Option<NSStringEncoding> {
    if encoding == kCFStringEncodingMacRoman {
        Some(NSMacOSRomanStringEncoding)
    } else if encoding == kCFStringEncodingASCII {
        Some(NSASCIIStringEncoding)
    } else if encoding == kCFStringEncodingUTF8 {
        Some(NSUTF8StringEncoding)
    } else if encoding == kCFStringEncodingUTF16 {
        Some(NSUTF16StringEncoding)
    } else if encoding == kCFStringEncodingUTF16BE {
        Some(NSUTF16BigEndianStringEncoding)
    } else if encoding == kCFStringEncodingUTF16LE {
        Some(NSUTF16LittleEndianStringEncoding)
    } else if encoding == kCFStringEncodingISOLatin1 {
        Some(NSISOLatin1StringEncoding)
    } else {
        None
    }
}

/// The Core Foundation encoding for a Foundation encoding, for the ones the
/// emulator knows.
pub open spec fn cf_encoding_of(encoding: NSStringEncoding) -> Option<CFStringEncoding> {
    if encoding == NSMacOSRomanStringEncoding {
        Some(kCFStringEncodingMacRoman)
    } else if encoding == NSASCIIStringEncoding {
        Some(kCFStringEncodingASCII)
    } else if encoding == NSUTF8StringEncoding {
        Some(kCFStringEncodingUTF8)
    } else if encoding == NSUTF16StringEncoding {
        Some(kCFStringEncodingUTF16)
    } else if encoding == NSUTF16BigEndianStringEncoding {
        Some(kCFStringEncodingUTF16BE)
    } else if encoding == NSUTF16LittleEndianStringEncoding {
        Some(kCFStringEncodingUTF16LE)
    } else if encoding == NSISOLatin1StringEncoding {
        Some(kCFStringEncodingISOLatin1)
    } else {
        None
    }
}

/// The Foundation counterpart of a known Core Foundation encoding.
pub fn CFStringConvertEncodingToNSStringEncoding(encoding: CFStringEncoding) -> (ns: NSStringEncoding)
    requires
        ns_encoding_of(encoding) is Some,
    ensures
        Some(ns) == ns_encoding_of(encoding),
{
    if encoding == kCFStringEncodingMacRoman {
        NSMacOSRomanStringEncoding
    } else if encoding == kCFStringEncodingASCII {
        NSASCIIStringEncoding
    } else if encoding == kCFStringEncodingUTF8 {
        NSUTF8StringEncoding
    } else if encoding == kCFStringEncodingUTF16 {
        NSUTF16StringEncoding
    } else if encoding == kCFStringEncodingUTF16BE {
        NSUTF16BigEndianStringEncoding
    } else if encoding == kCFStringEncodingUTF16LE {
        NSUTF16LittleEndianStringEncoding
    } else {
        NSISOLatin1StringEncoding
    }
}

/// The Core Foundation counterpart of a known Foundation encoding.
pub fn CFStringConvertNSStringEncodingToEncoding(encoding: NSStringEncoding) -> (cf: CFStringEncoding)
    requires
        cf_encoding_of(encoding) is Some,
    ensures
        Some(cf) == cf_encoding_of(encoding),
{
    if encoding == NSMacOSRomanStringEncoding {
        kCFStringEncodingMacRoman
    } else if encoding == NSASCIIStringEncoding {
        kCFStringEncodingASCII
    } else if encoding == NSUTF8StringEncoding {
        kCFStringEncodingUTF8
    } else if encoding == NSUTF16StringEncoding {
        kCFStringEncodingUTF16
    } else if encoding == NSUTF16BigEndianStringEncoding {
        kCFStringEncodingUTF16BE
    } else if encoding == NSUTF16LittleEndianStringEncoding {
        kCFStringEncodingUTF16LE
    } else {
        kCFStringEncodingISOLatin1
    }
}

/// Converting a known encoding to the other family and back gives it back,
/// both ways round.
pub proof fn law_encoding_roundtrip(cf: CFStringEncoding, ns: NSStringEncoding)
    ensures
        ns_encoding_of(cf) matches Some(n) ==> cf_encoding_of(n) == Some(cf),
        cf_encoding_of(ns) matches Some(c) ==> ns_encoding_of(c) == Some(ns),
{
}

// ----------------------------------------------------
// Byte encodings of characters
// ----------------------------------------------------

/// The UTF-8 encoding of `c`.
pub open spec fn utf8_char(c: char) -> Seq<u8> {
    let v = c as u32;
    if v < 0x80 {
        seq![v as u8]
    } else if v < 0x800 {
        seq![(0xC0u32 | (v >> 6u32)) as u8, (0x80u32 | (v & 0x3Fu32)) as u8]
    } else if v < 0x1_0000 {
        seq![
            (0xE0u32 | (v >> 12u32)) as u8,
            (0x80u32 | ((v >> 6u32) & 0x3Fu32)) as u8,
            (0x80u32 | (v & 0x3Fu32)) as u8,
        ]
    } else {
        seq![
            (0xF0u32 | (v >> 18u32)) as u8,
            (0x80u32 | ((v >> 12u32) & 0x3Fu32)) as u8,
            (0x80u32 | ((v >> 6u32) & 0x3Fu32)) as u8,
            (0x80u32 | (v & 0x3Fu32)) as u8,
        ]
    }
}

/// The UTF-16 code units of `c`: one, or a surrogate pair.
pub open spec fn utf16_char(c: char) -> Seq<u16> {
    let v = c as u32;
    if v < 0x1_0000 {
        seq![v as u16]
    } else {
        let w = (v - 0x1_0000) as u32;
        seq![(0xD800u32 | (w >> 10u32)) as u16, (0xDC00u32 | (w & 0x3FFu32)) as u16]
    }
}

/// The bytes of a UTF-16 code unit, little- or big-endian.
pub open spec fn unit_bytes(u: u16, big_endian: bool) -> Seq<u8> {
    if big_endian {
        seq![(u >> 8u16) as u8, (u & 0xFFu16) as u8]
    } else {
        seq![(u & 0xFFu16) as u8, (u >> 8u16) as u8]
    }
}

/// How `CFStringGetBytes` encodes text.
#[derive(Copy, Clone, Debug, PartialEq, Eq, Structural)]
pub enum ByteEncoding {
    Utf8,
    Latin1,
    Utf16 { big_endian: bool },
}

/// The bytes of one character in an encoding. Latin-1 drops the
/// characters it cannot represent.
pub open spec fn char_bytes(c: char, e: ByteEncoding) -> Seq<u8> {
    match e {
        ByteEncoding::Utf8 => utf8_char(c),
        ByteEncoding::Latin1 => if c as u32 <= 0xFF {
            seq![c as u8]
        } else {
            Seq::empty()
        },
        ByteEncoding::Utf16 { big_endian } => {
            let units = utf16_char(c);
            if units.len() == 1 {
                unit_bytes(units[0], big_endian)
            } else {
                unit_bytes(units[0], big_endian) + unit_bytes(units[1], big_endian)
            }
        },
    }
}

/// The bytes of a text in an encoding.
pub open spec fn encode(s: Seq<char>, e: ByteEncoding) -> Seq<u8>
    decreases s.len(),
{
    if s.len() == 0 {
        Seq::empty()
    } else {
        encode(s.drop_last(), e) + char_bytes(s.last(), e)
    }
}

/// The byte encoding used for a Foundation encoding, if `CFStringGetBytes`
/// handles it. ASCII is produced as UTF-8.
pub open spec fn byte_encoding_of(ns: NSStringEncoding) -> Option<ByteEncoding> {
    if ns == NSUTF8StringEncoding || ns == NSASCIIStringEncoding {
        Some(ByteEncoding::Utf8)
    } else if ns == NSISOLatin1StringEncoding {
        Some(ByteEncoding::Latin1)
    } else if ns == NSUTF16StringEncoding || ns == NSUTF16LittleEndianStringEncoding {
        Some(ByteEncoding::Utf16 { big_endian: false })
    } else if ns == NSUTF16BigEndianStringEncoding {
        Some(ByteEncoding::Utf16 { big_endian: true })
    } else {
        None
    }
}

fn push_unit(out: &mut Vec<u8>, u: u16, big_endian: bool)
    ensures
        final(out)@ == old(out)@ + unit_bytes(u, big_endian),
{
    if big_endian {
        out.push((u >> 8u16) as u8);
        out.push((u & 0xFFu16) as u8);
    } else {
        out.push((u & 0xFFu16) as u8);
        out.push((u >> 8u16) as u8);
    }
    assert(final(out)@ =~= old(out)@ + unit_bytes(u, big_endian));
}

/// Appends the bytes of `c` in encoding `e` to `out`.
pub fn push_char_bytes(out: &mut Vec<u8>, c: char, e: ByteEncoding)
    ensures
        final(out)@ == old(out)@ + char_bytes(c, e),
{
    let v = c as u32;
    match e {
        ByteEncoding::Utf8 => {
            if v < 0x80 {
                out.push(v as u8);
            } else if v < 0x800 {
                out.push((0xC0u32 | (v >> 6u32)) as u8);
                out.push((0x80u32 | (v & 0x3Fu32)) as u8);
            } else if v < 0x1_0000 {
                out.push((0xE0u32 | (v >> 12u32)) as u8);
                out.push((0x80u32 | ((v >> 6u32) & 0x3Fu32)) as u8);
                out.push((0x80u32 | (v & 0x3Fu32)) as u8);
            } else {
                out.push((0xF0u32 | (v >> 18u32)) as u8);
                out.push((0x80u32 | ((v >> 12u32) & 0x3Fu32)) as u8);
                out.push((0x80u32 | ((v >> 6u32) & 0x3Fu32)) as u8);
                out.push((0x80u32 | (v & 0x3Fu32)) as u8);
            }
        },
        ByteEncoding::Latin1 => {
            if v <= 0xFF {
                out.push(v as u8);
            }
        },
        ByteEncoding::Utf16 { big_endian } => {
            if v < 0x1_0000 {
                push_unit(out, v as u16, big_endian);
            } else {
                let w = v - 0x1_0000;
                push_unit(out, (0xD800u32 | (w >> 10u32)) as u16, big_endian);
                push_unit(out, (0xDC00u32 | (w & 0x3FFu32)) as u16, big_endian);
            }
        },
    }
    assert(final(out)@ =~= old(out)@ + char_bytes(c, e));
}

/// The bytes of `s` in encoding `e`.
pub fn encode_chars(s: &[char], e: ByteEncoding) -> (out: Vec<u8>)
    ensures
        out@ == encode(s@, e),
{
    let mut out: Vec<u8> = Vec::new();
    let mut i: usize = 0;
    assert(s@.take(0) =~= Seq::<char>::empty());
    while i < s.len()
        invariant
            i <= s@.len(),
            out@ == encode(s@.take(i as int), e),
        decreases s@.len() - i,
    {
        assert(s@.take(i + 1).drop_last() =~= s@.take(i as int));
        push_char_bytes(&mut out, s[i], e);
        i = i + 1;
    }
    assert(s@.take(s@.len() as int) =~= s@);
    out
}

// ----------------------------------------------------
// CFStringGetBytes
// ----------------------------------------------------

/// The characters of `s` that `range` selects: characters are skipped up
/// to the location and then taken up to the length, where a negative
/// location skips everything and a negative length takes the rest.
pub open spec fn range_chars(s: Seq<char>, range: CFRange) -> Seq<char> {
    let n = s.len() as int;
    let start = if range.location < 0 || range.location > n {
        n
    } else {
        range.location as int
    };
    let end = if range.length < 0 || start + range.length > n {
        n
    } else {
        start + range.length
    };
    s.subrange(start, end)
}

/// What `CFStringGetBytes` returns and writes for the text `s`: `None` if
/// the encoding is one it does not produce. Otherwise the number of bytes
/// it reports, with the bytes copied to `buffer` (when non-null, at most
/// `max_buf_len` of them) and that count stored at `used_buf_len` (when
/// non-null).
pub open spec fn get_bytes_result(
    mem: Seq<u8>,
    s: Seq<char>,
    range: CFRange,
    e: Option<ByteEncoding>,
    buffer: u32,
    max_buf_len: CFIndex,
    used_buf_len: u32,
) -> Option<(CFIndex, Seq<u8>)> {
    match e {
        None => None,
        Some(e) => {
            let bytes = encode(range_chars(s, range), e);
            let total = bytes.len() as int;
            let n = if buffer != 0 {
                if total < max_buf_len {
                    total
                } else {
                    max_buf_len as int
                }
            } else {
                total
            };
            let m1 = if buffer != 0 {
                write_bytes(mem, buffer as int, bytes.take(n))
            } else {
                mem
            };
            let m2 = if used_buf_len != 0 {
                write_bytes(m1, used_buf_len as int, u32_le_bytes(n as u32))
            } else {
                m1
            };
            Some((n as CFIndex, m2))
        },
    }
}

/// `CFStringGetBytes` for the text `the_string` (`None` for a null string,
/// which gives 0): encodes the characters that `range` selects in
/// `encoding`, copies as many bytes as fit into `buffer` if it is non-null,
/// stores the number of bytes at `used_buf_len` if it is non-null, and
/// returns that number. Encodings other than UTF-8, ASCII (produced as
/// UTF-8), Latin-1 and UTF-16 give 0 and write nothing.
#[verifier::spinoff_prover]
pub fn CFStringGetBytes(
    mem: &mut Mem,
    the_string: Option<&[char]>,
    range: CFRange,
    encoding: CFStringEncoding,
    loss_byte: u8,
    is_external_representation: bool,
    buffer: u32,
    max_buf_len: CFIndex,
    used_buf_len: u32,
) -> (res: CFIndex)
    requires
        ns_encoding_of(encoding) is Some,
        the_string matches Some(s) ==> {
            &&& s@.len() <= 0x1fff_ffff
            &&& byte_encoding_of(ns_encoding_of(encoding).unwrap()) matches Some(e) ==> {
                let total = encode(range_chars(s@, range), e).len();
                &&& buffer != 0 ==> max_buf_len >= 0 && buffer + (if total < max_buf_len {
                    total as int
                } else {
                    max_buf_len as int
                }) <= old(mem)@.len()
                &&& used_buf_len != 0 ==> used_buf_len + 4 <= old(mem)@.len()
            }
        },
    ensures
        final(mem).spec_next_alloc() == old(mem).spec_next_alloc(),
        old(mem).wf() ==> final(mem).wf(),
        match the_string {
            None => res == 0 && final(mem)@ == old(mem)@,
            Some(s) => match get_bytes_result(
                old(mem)@,
                s@,
                range,
                byte_encoding_of(ns_encoding_of(encoding).unwrap()),
                buffer,
                max_buf_len,
                used_buf_len,
            ) {
                None => res == 0 && final(mem)@ == old(mem)@,
                Some((n, m)) => res == n && final(mem)@ == m,
            },
        },
{
    let s = match the_string {
        None => {
            return 0;
        },
        Some(s) => s,
    };
    let _len = mem.len();
    let n = s.len();
    let start: usize = if range.location < 0 || range.location as usize > n {
        n
    } else {
        range.location as usize
    };
    let end: usize = if range.length < 0 || range.length as usize > n - start {
        n
    } else {
        start + range.length as usize
    };
    let sub = slice_range(s, start, end);
    let ns = CFStringConvertEncodingToNSStringEncoding(encoding);
    let e = if ns == NSUTF8StringEncoding || ns == NSASCIIStringEncoding {
        ByteEncoding::Utf8
    } else if ns == NSISOLatin1StringEncoding {
        ByteEncoding::Latin1
    } else if ns == NSUTF16StringEncoding || ns == NSUTF16LittleEndianStringEncoding {
        ByteEncoding::Utf16 { big_endian: false }
    } else if ns == NSUTF16BigEndianStringEncoding {
        ByteEncoding::Utf16 { big_endian: true }
    } else {
        return 0;
    };
    let bytes = encode_chars(sub.as_slice(), e);
    proof {
        assert(sub@ == range_chars(s@, range));
        lemma_encode_len(sub@, e);
    }
    let total = bytes.len() as CFIndex;
    let count: CFIndex = if buffer != 0 {
        let count = if total < max_buf_len { total } else { max_buf_len };
        let copied = slice_prefix(&bytes, count as usize);
        mem.write_bytes(buffer as u64, &copied);
        count
    } else {
        total
    };
    if used_buf_len != 0 {
        mem.write_u32(used_buf_len as u64, count as u32);
    }
    count
}

proof fn lemma_encode_len(s: Seq<char>, e: ByteEncoding)
    ensures
        encode(s, e).len() <= 4 * s.len(),
    decreases s.len(),
{
    if s.len() > 0 {
        lemma_encode_len(s.drop_last(), e);
    }
}

/// The characters of `s` from `start` to `end`.
fn slice_range(s: &[char], start: usize, end: usize) -> (out: Vec<char>)
    requires
        start <= end <= s@.len(),
    ensures
        out@ == s@.subrange(start as int, end as int),
{
    let mut out: Vec<char> = Vec::new();
    let mut i = start;
    while i < end
        invariant
            start <= i <= end <= s@.len(),
            out@ == s@.subrange(start as int, i as int),
        decreases end - i,
    {
        out.push(s[i]);
        i = i + 1;
        assert(out@ =~= s@.subrange(start as int, i as int));
    }
    out
}

/// The first `n` bytes of `v`.
fn slice_prefix(v: &Vec<u8>, n: usize) -> (out: Vec<u8>)
    requires
        n <= v@.len(),
    ensures
        out@ == v@.take(n as int),
{
    let mut out: Vec<u8> = Vec::new();
    let mut i: usize = 0;
    while i < n
        invariant
            i <= n <= v@.len(),
            out@ == v@.take(i as int),
        decreases n - i,
    {
        out.push(v[i]);
        i = i + 1;
        assert(out@ =~= v@.take(i as int));
    }
    out
}

// ----------------------------------------------------
// Ranges
// ----------------------------------------------------

/// The Core Foundation range for what an `NSString` search found:
/// `NSNotFound` becomes `kCFNotFound` (the two differ), other values carry
/// over.
pub fn find_result_range(found: NSRange) -> (r: CFRange)
    requires
        found.location <= NSNotFound,
        found.length <= 0x7fff_ffff,
    ensures
        r.location == if found.location == NSNotFound as NSUInteger {
            kCFNotFound
        } else {
            found.location as CFIndex
        },
        r.length == found.length as CFIndex,
{
    let location: CFIndex = if found.location == NSNotFound as NSUInteger {
        kCFNotFound
    } else {
        found.location as CFIndex
    };
    CFRange { location, length: found.length as CFIndex }
}

/// The Foundation range for a non-negative Core Foundation range.
pub fn ns_range_from_cf(range: CFRange) -> (r: NSRange)
    requires
        range.location >= 0,
        range.length >= 0,
    ensures
        r.location == range.location,
        r.length == range.length,
{
    NSRange { location: range.location as NSUInteger, length: range.length as NSUInteger }
}

/// The length byte of a Pascal string of `len` characters written into a
/// buffer of `buffer_size` bytes, which must have room for the length byte
/// and the characters.
pub fn pascal_length_byte(len: CFIndex, buffer_size: CFIndex) -> (b: u8)
    requires
        0 <= len <= 255,
        len + 1 <= buffer_size,
    ensures
        b == len,
{
    len as u8
}

/// The characters of the Pascal string at `p_str`: as many bytes as its
/// first byte says, after that byte.
pub fn pascal_string_bytes(mem: &Mem, p_str: u32) -> (bytes: Vec<u8>)
    requires
        p_str + 1 <= mem@.len(),
        p_str + 1 + mem@[p_str as int] <= mem@.len(),
    ensures
        bytes@ == mem@.subrange(p_str + 1, p_str + 1 + mem@[p_str as int]),
{
    let len = mem.read_u8(p_str as u64);
    mem.bytes_at(p_str as u64 + 1, len as u64)
}

} // verus!
