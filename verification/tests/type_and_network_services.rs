use touchhle::abi::GuestFunction;
use touchhle::frameworks::mobile_core_services::{
    PreferredIdentifier, UTTypeConformsTo, UTTypeCreatePreferredIdentifierForTag, UTTypeEqual,
};
use touchhle::frameworks::system_configuration::sc_network_reachability::{
    SCNetworkReachabilityCreateWithAddress, SCNetworkReachabilityCreateWithName,
    SCNetworkReachabilityGetFlags, SCNetworkReachabilityScheduleWithRunLoop,
    SCNetworkReachabilitySetCallback, SCNetworkReachabilityUnscheduleFromRunLoop,
};
use touchhle::mem::Mem;

#[test]
fn preferred_identifier_is_the_tag() {
    assert_eq!(
        UTTypeCreatePreferredIdentifierForTag(0x5000),
        PreferredIdentifier::Tag(0x5000)
    );
    assert_eq!(
        UTTypeCreatePreferredIdentifierForTag(0),
        PreferredIdentifier::PublicData
    );
}

#[test]
fn every_type_conforms() {
    assert!(UTTypeConformsTo(0x10, 0x20));
    assert!(UTTypeConformsTo(0, 0));
}

#[test]
fn type_equality_needs_two_identifiers() {
    assert!(UTTypeEqual(0x10, 0x10));
    assert!(!UTTypeEqual(0x10, 0x20));
    assert!(!UTTypeEqual(0, 0));
    assert!(!UTTypeEqual(0, 0x10));
}

#[test]
fn reachability_flags_are_written() {
    let mut mem = Mem::new(0x1000, 0x100);
    assert!(SCNetworkReachabilityGetFlags(&mut mem, 0x200));
    // Reachable | IsDirect | IsWWAN, little-endian.
    assert_eq!(mem.read_u32(0x200), 0x6_0002);
    assert_eq!(mem.bytes_at(0x200, 4), vec![0x02, 0x00, 0x06, 0x00]);
}

#[test]
fn reachability_by_address_keeps_the_sockaddr() {
    let mut mem = Mem::new(0x1000, 0x100);
    let sockaddr: Vec<u8> = (1..=16).collect();
    mem.write_bytes(0x300, &sockaddr);
    let target = SCNetworkReachabilityCreateWithAddress(&mem, 0x300);
    assert_eq!(target.address, Some(sockaddr));
    assert!(!target.is_name_based);
    assert!(target.callback.is_none());
    let by_name = SCNetworkReachabilityCreateWithName();
    assert!(by_name.address.is_none());
    assert!(by_name.is_name_based);
}

#[test]
fn reachability_callback_is_called_once_scheduled() {
    let mut target = SCNetworkReachabilityCreateWithName();
    assert!(SCNetworkReachabilityScheduleWithRunLoop(&target).is_none());
    let callout = GuestFunction::from_addr_with_thumb_bit(0x4000);
    assert!(SCNetworkReachabilitySetCallback(&mut target, callout, 0x77));
    let (f, flags, context) = SCNetworkReachabilityScheduleWithRunLoop(&target).unwrap();
    assert_eq!(f.addr_with_thumb_bit(), 0x4000);
    assert_eq!(flags, 0x6_0002);
    assert_eq!(context, 0x77);
    assert!(SCNetworkReachabilityUnscheduleFromRunLoop(&target));
}
