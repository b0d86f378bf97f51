//! Foundation: ranges, timers and the other Foundation pieces that need no
//! Objective-C runtime.
use vstd::prelude::*;
use crate::abi::GuestArg;

pub mod ns_data;
pub mod ns_keyed_unarchiver;
pub mod ns_object;
pub mod ns_scanner;
pub mod ns_timer;
pub mod ns_url_request;
pub mod ns_url;

verus! {

pub type NSInteger = i32;
pub type NSUInteger = u32;

/// `NSNotFound`: the largest `NSInteger`.
pub const NSNotFound: NSInteger = 0x7fff_ffff;

/// A range of indices: `length` items from `location`.
#[derive(Copy, Clone, Debug, PartialEq, Eq, Structural)]
pub struct NSRange {
    pub location: NSUInteger,
    pub length: NSUInteger,
}

/// A range is passed in two argument words: location, then length.
impl GuestArg for NSRange {
    open spec fn spec_reg_count() -> nat {
        2
    }

    open spec fn spec_from_regs(regs: Seq<u64>) -> NSRange {
        NSRange { location: regs[0] as u32, length: regs[1] as u32 }
    }

    open spec fn spec_to_regs(self) -> Seq<u64> {
        seq![self.location as u64, self.length as u64]
    }

    fn reg_count() -> (n: usize) {
        2
    }

    fn from_regs(regs: &[u64]) -> (v: NSRange) {
        NSRange { location: regs[0] as u32, length: regs[1] as u32 }
    }

    fn to_regs(self, regs: &mut [u64]) {
        regs[0] = self.location as u64;
        regs[1] = self.length as u64;
        assert(regs@ =~= seq![self.location as u64, self.length as u64]);
    }

    proof fn lemma_regs_roundtrip(v: NSRange) {
    }
}

/// The decimal digits of `n`, most significant first.
pub open spec fn decimal(n: nat) -> Seq<u8>
    decreases n,
{
    if n < 10 {
        seq![(48 + n) as u8]
    } else {
        decimal(n / 10).push((48 + n % 10) as u8)
    }
}

/// Appends the decimal digits of `n` to `out`.
pub fn push_decimal(out: &mut Vec<u8>, n: u32)
    ensures
        final(out)@ == old(out)@ + decimal(n as nat),
    decreases n,
{
    if n >= 10 {
        push_decimal(out, n / 10);
    }
    out.push(48u8 + (n % 10) as u8);
    assert(final(out)@ =~= old(out)@ + decimal(n as nat));
}

/// The text of `NSStringFromRange`: `{location, length}`.
pub open spec fn range_text(range: NSRange) -> Seq<u8> {
    seq![123u8] + decimal(range.location as nat) + seq![44u8, 32u8] + decimal(range.length as nat)
        + seq![125u8]
}

/// The text of `NSStringFromRange(range)`, as ASCII bytes.
pub fn ns_string_from_range(range: NSRange) -> (text: Vec<u8>)
    ensures
        text@ == range_text(range),
{
    let mut out: Vec<u8> = Vec::new();
    out.push(123u8);
    push_decimal(&mut out, range.location);
    out.push(44u8);
    out.push(32u8);
    push_decimal(&mut out, range.length);
    out.push(125u8);
    assert(out@ =~= range_text(range));
    out
}

} // verus!
