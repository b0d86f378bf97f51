//! Core Foundation: ranges and the string conversions behind `CFString`.
use vstd::prelude::*;

pub mod cf_number;
pub mod cf_string;

verus! {

pub type CFIndex = i32;

/// `kCFNotFound`.
pub const kCFNotFound: CFIndex = -1;

/// A range of indices: `length` items from `location`.
#[derive(Copy, Clone, Debug, PartialEq, Eq, Structural)]
pub struct CFRange {
    pub location: CFIndex,
    pub length: CFIndex,
}

} // verus!
