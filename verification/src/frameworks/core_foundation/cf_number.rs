//! `CFNumber`: reading the value a number is created from.
use vstd::prelude::*;
use crate::frameworks::core_foundation::CFIndex;
use crate::mem::{le_u32, Mem};

verus! {

pub type CFNumberType = CFIndex;
pub const kCFNumberSInt32Type: CFNumberType = 3;
pub const kCFNumberCharType: CFNumberType = 7;
pub const kCFNumberShortType: CFNumberType = 8;
pub const kCFNumberFloatType: CFNumberType = 12;

/// The value of a new number, by type.
#[derive(Copy, Clone, Debug, PartialEq, Eq, Structural)]
pub enum CFNumberValue {
    SInt32(i32),
    Char(i8),
    Short(i16),
    /// The bits of a 32-bit floating-point number.
    FloatBits(u32),
}

/// Bytes that a value of a supported number type occupies (0 for the
/// others).
pub open spec fn cf_number_size(type_: CFNumberType) -> nat {
    if type_ == kCFNumberSInt32Type || type_ == kCFNumberFloatType {
        4
    } else if type_ == kCFNumberShortType {
        2
    } else if type_ == kCFNumberCharType {
        1
    } else {
        0
    }
}

/// `CFNumberCreate`: reads the value at `value_ptr` as a number of type
/// `type_` (32-bit integer, char, short or float).
pub fn cf_number_value(mem: &Mem, type_: CFNumberType, value_ptr: u32) -> (v: CFNumberValue)
    requires
        cf_number_size(type_) > 0,
        value_ptr + cf_number_size(type_) <= mem@.len(),
    ensures
        v == if type_ == kCFNumberSInt32Type {
            CFNumberValue::SInt32(le_u32(mem@, value_ptr as int) as i32)
        } else if type_ == kCFNumberFloatType {
            CFNumberValue::FloatBits(le_u32(mem@, value_ptr as int))
        } else if type_ == kCFNumberShortType {
            CFNumberValue::Short(
                ((mem@[value_ptr as int] as u16) | ((mem@[value_ptr + 1] as u16) << 8u16)) as i16,
            )
        } else {
            CFNumberValue::Char(mem@[value_ptr as int] as i8)
        },
{
    let p = value_ptr as u64;
    if type_ == kCFNumberSInt32Type {
        CFNumberValue::SInt32(mem.read_u32(p) as i32)
    } else if type_ == kCFNumberFloatType {
        CFNumberValue::FloatBits(mem.read_u32(p))
    } else if type_ == kCFNumberShortType {
        let lo = mem.read_u8(p) as u16;
        let hi = mem.read_u8(p + 1) as u16;
        CFNumberValue::Short((lo | (hi << 8u16)) as i16)
    } else {
        CFNumberValue::Char(mem.read_u8(p) as i8)
    }
}

} // verus!
