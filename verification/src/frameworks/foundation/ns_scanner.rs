//! `NSScanner`: reading numbers and runs of characters from a string, each
//! scan first skipping the characters to be skipped. Strings are UTF-16
//! code units. Which characters belong to an `NSCharacterSet` is asked of
//! the set around this library and handed in as one flag per character of
//! the scanned string.
use vstd::prelude::*;

verus! {

/// A scanner.
pub struct NSScannerHostObject {
    /// The `NSCharacterSet` of the characters to be skipped.
    pub to_be_skipped: u32,
    /// The scanned string.
    pub string: Vec<u16>,
    /// Where the next scan starts.
    pub pos: usize,
}

/// How many of `flags`, from `start` on, equal `value` before one does not.
pub open spec fn run_of(flags: Seq<bool>, start: int, value: bool) -> nat
    decreases flags.len() - start,
{
    if start < 0 || start >= flags.len() || flags[start] != value {
        0
    } else {
        1 + run_of(flags, start + 1, value)
    }
}

/// An ASCII decimal digit.
pub open spec fn is_dec_digit(c: u16) -> bool {
    0x30 <= c <= 0x39
}

/// An ASCII hexadecimal digit, in either case.
pub open spec fn is_hex_digit(c: u16) -> bool {
    is_dec_digit(c) || (0x41 <= c <= 0x46) || (0x61 <= c <= 0x66)
}

/// The characters `scanInt:` reads: decimal digits and signs.
pub open spec fn is_int_char(c: u16) -> bool {
    is_dec_digit(c) || c == 0x2b || c == 0x2d
}

/// The value of the hexadecimal digit `c`.
pub open spec fn hex_digit_value(c: u16) -> nat {
    if c <= 0x39 {
        (c - 0x30) as nat
    } else if c <= 0x46 {
        (c - 0x41 + 10) as nat
    } else {
        (c - 0x61 + 10) as nat
    }
}

/// The value of the hexadecimal digits `d`.
pub open spec fn hex_value(d: Seq<u16>) -> nat
    decreases d.len(),
{
    if d.len() == 0 {
        0
    } else {
        hex_value(d.drop_last()) * 16 + hex_digit_value(d.last())
    }
}

/// The value of the decimal digits `d`.
pub open spec fn dec_value(d: Seq<u16>) -> nat
    decreases d.len(),
{
    if d.len() == 0 {
        0
    } else {
        dec_value(d.drop_last()) * 10 + (d.last() - 0x30) as nat
    }
}

/// How many hexadecimal digits `s` has from `start` on.
pub open spec fn hex_run(s: Seq<u16>, start: int) -> nat
    decreases s.len() - start,
{
    if start < 0 || start >= s.len() || !is_hex_digit(s[start]) {
        0
    } else {
        1 + hex_run(s, start + 1)
    }
}

/// How many decimal digits and signs `s` has from `start` on.
pub open spec fn int_run(s: Seq<u16>, start: int) -> nat
    decreases s.len() - start,
{
    if start < 0 || start >= s.len() || !is_int_char(s[start]) {
        0
    } else {
        1 + int_run(s, start + 1)
    }
}

/// `s` has the prefix `0x` or `0X` at `i`.
pub open spec fn has_hex_prefix(s: Seq<u16>, i: int) -> bool {
    0 <= i && i + 2 <= s.len() && s[i] == 0x30 && (s[i + 1] == 0x78 || s[i + 1] == 0x58)
}

/// Every character of `d` is a decimal digit.
pub open spec fn all_dec_digits(d: Seq<u16>) -> bool {
    forall|i: int| 0 <= i < d.len() ==> is_dec_digit(#[trigger] d[i])
}

/// What `i32`'s `from_str` makes of `t`: an optional sign and then one or
/// more decimal digits whose value fits; `None` otherwise.
pub open spec fn parse_i32(t: Seq<u16>) -> Option<i32> {
    let signed = t.len() > 0 && (t[0] == 0x2b || t[0] == 0x2d);
    let negative = t.len() > 0 && t[0] == 0x2d;
    let digits = if signed {
        t.drop_first()
    } else {
        t
    };
    if digits.len() == 0 || !all_dec_digits(digits) {
        None
    } else if negative {
        if dec_value(digits) <= 0x8000_0000 {
            Some((-dec_value(digits)) as i32)
        } else {
            None
        }
    } else if dec_value(digits) <= 0x7fff_ffff {
        Some(dec_value(digits) as i32)
    } else {
        None
    }
}

impl NSScannerHostObject {
    /// The scan position lies in the string.
    pub open spec fn wf(&self) -> bool {
        self.pos <= self.string@.len()
    }

    /// `-[NSScanner initWithString:]`: scans `string` from its start,
    /// skipping the characters of `to_be_skipped` (by default the
    /// whitespace and newline set).
    pub fn new(string: Vec<u16>, to_be_skipped: u32) -> (s: Self)
        ensures
            s.wf(),
            s.string@ == string@,
            s.pos == 0,
            s.to_be_skipped == to_be_skipped,
    {
        NSScannerHostObject { to_be_skipped, string, pos: 0 }
    }

    /// Moves the scan position past the characters to be skipped;
    /// `skipped[i]` says whether character `i` of the string is one.
    pub fn skip_characters(&mut self, skipped: &[bool])
        requires
            old(self).wf(),
            skipped@.len() == old(self).string@.len(),
        ensures
            final(self).wf(),
            final(self).string == old(self).string,
            final(self).to_be_skipped == old(self).to_be_skipped,
            final(self).pos == old(self).pos + run_of(skipped@, old(self).pos as int, true),
    {
        let ghost start = self.pos as int;
        while self.pos < self.string.len() && skipped[self.pos]
            invariant
                skipped@.len() == self.string@.len(),
                start <= self.pos <= self.string@.len(),
                self.string == old(self).string,
                self.to_be_skipped == old(self).to_be_skipped,
                start == old(self).pos,
                run_of(skipped@, start, true) == (self.pos - start) + run_of(
                    skipped@,
                    self.pos as int,
                    true,
                ),
            decreases self.string@.len() - self.pos,
        {
            self.pos = self.pos + 1;
        }
    }

    /// `-isAtEnd`: skips, then tells whether the whole string was scanned.
    pub fn is_at_end(&mut self, skipped: &[bool]) -> (end: bool)
        requires
            old(self).wf(),
            skipped@.len() == old(self).string@.len(),
        ensures
            final(self).wf(),
            final(self).string == old(self).string,
            final(self).to_be_skipped == old(self).to_be_skipped,
            final(self).pos == old(self).pos + run_of(skipped@, old(self).pos as int, true),
            end == (final(self).pos == final(self).string@.len()),
    {
        self.skip_characters(skipped);
        self.pos == self.string.len()
    }

    /// `-scanUpToCharactersFromSet:intoString:`: skips, then reads the
    /// characters up to the first one of the set, or to the end; `in_set[i]`
    /// says whether character `i` of the string is in the set. Fails, after
    /// skipping, when no character is read.
    pub fn scan_up_to_characters_from_set(&mut self, skipped: &[bool], in_set: &[bool]) -> (read:
        Option<Vec<u16>>)
        requires
            old(self).wf(),
            skipped@.len() == old(self).string@.len(),
            in_set@.len() == old(self).string@.len(),
        ensures
            final(self).wf(),
            final(self).string == old(self).string,
            final(self).to_be_skipped == old(self).to_be_skipped,
            ({
                let start = old(self).pos + run_of(skipped@, old(self).pos as int, true);
                let n = run_of(in_set@, start, false);
                if n == 0 {
                    read is None && final(self).pos == start
                } else {
                    &&& read matches Some(r) && r@ == old(self).string@.subrange(start, start + n)
                    &&& final(self).pos == start + n
                }
            }),
    {
        self.skip_characters(skipped);
        let start = self.pos;
        let mut chars: Vec<u16> = Vec::new();
        while self.pos < self.string.len() && !in_set[self.pos]
            invariant
                in_set@.len() == self.string@.len(),
                start <= self.pos <= self.string@.len(),
                self.string == old(self).string,
                self.to_be_skipped == old(self).to_be_skipped,
                run_of(in_set@, start as int, false) == (self.pos - start) + run_of(
                    in_set@,
                    self.pos as int,
                    false,
                ),
                chars@ == self.string@.subrange(start as int, self.pos as int),
            decreases self.string@.len() - self.pos,
        {
            chars.push(self.string[self.pos]);
            self.pos = self.pos + 1;
            assert(chars@ =~= self.string@.subrange(start as int, self.pos as int));
        }
        if self.pos == start {
            None
        } else {
            Some(chars)
        }
    }

    /// `-scanHexInt:`: skips, then reads an optional `0x` or `0X` and one or
    /// more hexadecimal digits. Returns their value, or 0 if it does not fit
    /// in 32 bits; fails, after skipping, when there is no digit (even after
    /// a prefix).
    pub fn scan_hex_int(&mut self, skipped: &[bool]) -> (value: Option<u32>)
        requires
            old(self).wf(),
            skipped@.len() == old(self).string@.len(),
        ensures
            final(self).wf(),
            final(self).string == old(self).string,
            final(self).to_be_skipped == old(self).to_be_skipped,
            ({
                let s = old(self).string@;
                let start = old(self).pos + run_of(skipped@, old(self).pos as int, true);
                let first = if has_hex_prefix(s, start) {
                    start + 2
                } else {
                    start
                };
                let n = hex_run(s, first);
                if n == 0 {
                    value is None && final(self).pos == start
                } else {
                    let v = hex_value(s.subrange(first, first + n));
                    &&& value == Some(
                        if v <= u32::MAX {
                            v as u32
                        } else {
                            0u32
                        },
                    )
                    &&& final(self).pos == first + n
                }
            }),
    {
        self.skip_characters(skipped);
        let start = self.pos;
        let len = self.string.len();
        let mut i = start;
        if start < len && len - start >= 2 && self.string[start] == 0x30 && (self.string[start + 1] == 0x78
            || self.string[start + 1] == 0x58) {
            i = start + 2;
        }
        let first = i;
        let ghost s = self.string@;
        // The value so far, while it fits in 32 bits.
        let mut acc: u64 = 0;
        let mut fits = true;
        assert(s.subrange(first as int, first as int) =~= Seq::<u16>::empty());
        while i < len && is_hex(self.string[i])
            invariant
                s == self.string@,
                len == s.len(),
                first <= i <= len,
                hex_run(s, first as int) == (i - first) + hex_run(s, i as int),
                fits <==> hex_value(s.subrange(first as int, i as int)) <= u32::MAX,
                fits ==> acc == hex_value(s.subrange(first as int, i as int)),
            decreases len - i,
        {
            let c = self.string[i];
            let ghost before = s.subrange(first as int, i as int);
            proof {
                assert(s.subrange(first as int, i + 1).drop_last() =~= before);
                assert(s.subrange(first as int, i + 1).last() == c);
            }
            if fits {
                let next = acc * 16 + hex_digit(c) as u64;
                if next > 0xffff_ffff {
                    fits = false;
                } else {
                    acc = next;
                }
            } else {
                proof {
                    assert(hex_value(before) * 16 + hex_digit_value(c) >= hex_value(before)) by (nonlinear_arith);
                }
            }
            i = i + 1;
        }
        if i == first {
            return None;
        }
        self.pos = i;
        if fits {
            Some(acc as u32)
        } else {
            Some(0)
        }
    }

    /// `-scanInt:`: skips, then reads the run of decimal digits and signs
    /// that follows. Returns what `i32`'s `from_str` makes of it, or 0 when
    /// that fails (a misplaced sign, no digit, or a value out of range); fails,
    /// after skipping, when the run is empty.
    pub fn scan_int(&mut self, skipped: &[bool]) -> (value: Option<i32>)
        requires
            old(self).wf(),
            skipped@.len() == old(self).string@.len(),
        ensures
            final(self).wf(),
            final(self).string == old(self).string,
            final(self).to_be_skipped == old(self).to_be_skipped,
            ({
                let s = old(self).string@;
                let start = old(self).pos + run_of(skipped@, old(self).pos as int, true);
                let n = int_run(s, start);
                if n == 0 {
                    value is None && final(self).pos == start
                } else {
                    &&& value == Some(
                        match parse_i32(s.subrange(start, start + n)) {
                            Some(v) => v,
                            None => 0i32,
                        },
                    )
                    &&& final(self).pos == start + n
                }
            }),
    {
        self.skip_characters(skipped);
        let start = self.pos;
        let len = self.string.len();
        let ghost s = self.string@;
        let mut end = start;
        while end < len && is_int(self.string[end])
            invariant
                s == self.string@,
                len == s.len(),
                start <= end <= len,
                int_run(s, start as int) == (end - start) + int_run(s, end as int),
                forall|k: int| start <= k < end ==> is_int_char(#[trigger] s[k]),
            decreases len - end,
        {
            end = end + 1;
        }
        if end == start {
            return None;
        }
        self.pos = end;
        let token = self.string.as_slice();
        Some(
            match parse_i32_at(token, start, end) {
                Some(v) => v,
                None => 0,
            },
        )
    }
}

fn is_hex(c: u16) -> (b: bool)
    ensures
        b == is_hex_digit(c),
{
    (0x30 <= c && c <= 0x39) || (0x41 <= c && c <= 0x46) || (0x61 <= c && c <= 0x66)
}

fn is_int(c: u16) -> (b: bool)
    ensures
        b == is_int_char(c),
{
    (0x30 <= c && c <= 0x39) || c == 0x2b || c == 0x2d
}

fn hex_digit(c: u16) -> (v: u8)
    requires
        is_hex_digit(c),
    ensures
        v == hex_digit_value(c),
        v < 16,
{
    if c <= 0x39 {
        (c - 0x30) as u8
    } else if c <= 0x46 {
        (c - 0x41 + 10) as u8
    } else {
        (c - 0x61 + 10) as u8
    }
}

/// [parse_i32] of the characters `start..end` of `s`.
fn parse_i32_at(s: &[u16], start: usize, end: usize) -> (v: Option<i32>)
    requires
        start <= end <= s@.len(),
    ensures
        v == parse_i32(s@.subrange(start as int, end as int)),
{
    let ghost t = s@.subrange(start as int, end as int);
    if start == end {
        return None;
    }
    let negative = s[start] == 0x2d;
    let signed = negative || s[start] == 0x2b;
    let first = if signed {
        start + 1
    } else {
        start
    };
    let ghost digits = s@.subrange(first as int, end as int);
    proof {
        assert(t[0] == s@[start as int]);
        if signed {
            assert(t.drop_first() =~= digits);
        } else {
            assert(t =~= digits);
        }
    }
    if first == end {
        return None;
    }
    // Magnitude so far, while it stays within 2^31.
    let mut acc: u64 = 0;
    let mut fits = true;
    let mut i = first;
    assert(s@.subrange(first as int, first as int) =~= Seq::<u16>::empty());
    while i < end
        invariant
            first <= i <= end <= s@.len(),
            digits == s@.subrange(first as int, end as int),
            t == s@.subrange(start as int, end as int),
            t.len() > 0,
            negative == (t[0] == 0x2d),
            signed == (t[0] == 0x2b || t[0] == 0x2d),
            signed ==> t.drop_first() == digits,
            !signed ==> t == digits,
            digits.len() > 0,
            forall|k: int| first <= k < i ==> is_dec_digit(#[trigger] s@[k]),
            fits <==> dec_value(s@.subrange(first as int, i as int)) <= 0x8000_0000,
            fits ==> acc == dec_value(s@.subrange(first as int, i as int)),
        decreases end - i,
    {
        let c = s[i];
        if !(0x30 <= c && c <= 0x39) {
            proof {
                assert(digits[i - first] == c);
                assert(!is_dec_digit(digits[i - first]));
                assert(!all_dec_digits(digits));
            }
            return None;
        }
        let ghost before = s@.subrange(first as int, i as int);
        proof {
            assert(s@.subrange(first as int, i + 1).drop_last() =~= before);
            assert(s@.subrange(first as int, i + 1).last() == c);
        }
        if fits {
            let next = acc * 10 + (c - 0x30) as u64;
            if next > 0x8000_0000 {
                fits = false;
            } else {
                acc = next;
            }
        } else {
            proof {
                assert(dec_value(before) * 10 + (c - 0x30) as nat >= dec_value(before)) by (nonlinear_arith);
            }
        }
        i = i + 1;
    }
    proof {
        assert forall|k: int| 0 <= k < digits.len() implies is_dec_digit(#[trigger] digits[k]) by {
            assert(digits[k] == s@[first + k]);
        }
        assert(all_dec_digits(digits));
    }
    if !fits {
        return None;
    }
    if negative {
        Some((0i64 - acc as i64) as i32)
    } else if acc <= 0x7fff_ffff {
        Some(acc as i32)
    } else {
        None
    }
}

} // verus!
