//! `SCNetworkReachability`: the network is always reported reachable,
//! directly and over the cellular network, as some apps insist on it.
use vstd::prelude::*;
use crate::abi::GuestFunction;
use crate::mem::{u32_le_bytes, write_bytes, Mem};

verus! {

pub type SCNetworkReachabilityFlags = u32;
pub const kSCNetworkReachabilityFlagsReachable: SCNetworkReachabilityFlags = 0x2;
pub const kSCNetworkReachabilityFlagsIsDirect: SCNetworkReachabilityFlags = 0x2_0000;
pub const kSCNetworkReachabilityFlagsIsWWAN: SCNetworkReachabilityFlags = 0x4_0000;

/// The flags reported for every target.
pub open spec fn reported_flags() -> SCNetworkReachabilityFlags {
    kSCNetworkReachabilityFlagsReachable | kSCNetworkReachabilityFlagsIsDirect
        | kSCNetworkReachabilityFlagsIsWWAN
}

/// Size of a `sockaddr`.
pub const SOCKADDR_SIZE: u64 = 16;

/// A reachability target.
pub struct SCNetworkReachabilityHostObject {
    /// The socket address it was created with (its `sockaddr` bytes), if
    /// any.
    pub address: Option<Vec<u8>>,
    pub is_name_based: bool,
    pub callback: Option<GuestFunction>,
    pub callback_context: u32,
}

/// `SCNetworkReachabilityCreateWithName`: a target for a host name.
pub fn SCNetworkReachabilityCreateWithName() -> (t: SCNetworkReachabilityHostObject)
    ensures
        t.address is None,
        t.is_name_based,
        t.callback is None,
        t.callback_context == 0,
{
    SCNetworkReachabilityHostObject {
        address: None,
        is_name_based: true,
        callback: None,
        callback_context: 0,
    }
}

/// `SCNetworkReachabilityCreateWithAddress`: a target for the socket
/// address at `address`.
pub fn SCNetworkReachabilityCreateWithAddress(mem: &Mem, address: u32) -> (t:
    SCNetworkReachabilityHostObject)
    requires
        address + SOCKADDR_SIZE <= mem@.len(),
    ensures
        t.address matches Some(a) && a@ == mem@.subrange(address as int, address + SOCKADDR_SIZE),
        !t.is_name_based,
        t.callback is None,
        t.callback_context == 0,
{
    SCNetworkReachabilityHostObject {
        address: Some(mem.bytes_at(address as u64, SOCKADDR_SIZE)),
        is_name_based: false,
        callback: None,
        callback_context: 0,
    }
}

/// `SCNetworkReachabilityGetFlags`: stores [reported_flags] at `flags`
/// and succeeds.
pub fn SCNetworkReachabilityGetFlags(mem: &mut Mem, flags: u32) -> (ok: bool)
    requires
        flags + 4 <= old(mem)@.len(),
    ensures
        ok,
        final(mem)@ == write_bytes(old(mem)@, flags as int, u32_le_bytes(reported_flags())),
        final(mem).spec_next_alloc() == old(mem).spec_next_alloc(),
        old(mem).wf() ==> final(mem).wf(),
{
    let out_flags = kSCNetworkReachabilityFlagsReachable | kSCNetworkReachabilityFlagsIsDirect
        | kSCNetworkReachabilityFlagsIsWWAN;
    mem.write_u32(flags as u64, out_flags);
    true
}

/// `SCNetworkReachabilitySetCallback`: remembers the callback and its
/// context, and succeeds.
pub fn SCNetworkReachabilitySetCallback(
    target: &mut SCNetworkReachabilityHostObject,
    callout: GuestFunction,
    context: u32,
) -> (ok: bool)
    ensures
        ok,
        final(target).callback == Some(callout),
        final(target).callback_context == context,
        final(target).address == old(target).address,
        final(target).is_name_based == old(target).is_name_based,
{
    target.callback = Some(callout);
    target.callback_context = context;
    true
}

/// `SCNetworkReachabilityScheduleWithRunLoop`: the reachability never
/// changes, so the callback, if one is set, is called once right away;
/// returns it with the flags and context to call it with.
pub fn SCNetworkReachabilityScheduleWithRunLoop(target: &SCNetworkReachabilityHostObject) -> (call:
    Option<(GuestFunction, SCNetworkReachabilityFlags, u32)>)
    ensures
        call == match target.callback {
            Some(f) => Some((f, reported_flags(), target.callback_context)),
            None => None,
        },
{
    match target.callback {
        Some(f) => Some(
            (
                f,
                kSCNetworkReachabilityFlagsReachable | kSCNetworkReachabilityFlagsIsDirect
                    | kSCNetworkReachabilityFlagsIsWWAN,
                target.callback_context,
            ),
        ),
        None => None,
    }
}

/// `SCNetworkReachabilityUnscheduleFromRunLoop`: nothing is scheduled
/// that needs undoing; succeeds.
pub fn SCNetworkReachabilityUnscheduleFromRunLoop(_target: &SCNetworkReachabilityHostObject) -> (ok: bool)
    ensures
        ok,
{
    true
}

} // verus!
