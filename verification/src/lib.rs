use vstd::prelude::*;

pub mod abi;
pub mod cpu;
pub mod dyld;
pub mod frameworks;
pub mod gles;
pub mod mach_o;
pub mod mem;

verus! {

} // verus!
