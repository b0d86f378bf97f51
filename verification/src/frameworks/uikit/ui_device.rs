//! `UIDevice`: the device object, created on first use and kept for good,
//! and its orientation, which follows the window's rotation.
use vstd::prelude::*;

verus! {

pub type UIDeviceOrientation = i32;
pub const UIDeviceOrientationUnknown: UIDeviceOrientation = 0;
pub const UIDeviceOrientationPortrait: UIDeviceOrientation = 1;
pub const UIDeviceOrientationPortraitUpsideDown: UIDeviceOrientation = 2;
pub const UIDeviceOrientationLandscapeLeft: UIDeviceOrientation = 3;
pub const UIDeviceOrientationLandscapeRight: UIDeviceOrientation = 4;
pub const UIDeviceOrientationFaceUp: UIDeviceOrientation = 5;
pub const UIDeviceOrientationFaceDown: UIDeviceOrientation = 6;

pub type UIDeviceBatteryState = i32;
pub const UIDeviceBatteryStateUnknown: UIDeviceBatteryState = 0;
pub const UIDeviceBatteryStateUnplugged: UIDeviceBatteryState = 1;
pub const UIDeviceBatteryStateCharging: UIDeviceBatteryState = 2;
pub const UIDeviceBatteryStateFull: UIDeviceBatteryState = 3;

/// The rotations the emulator's window can show the device in.
#[derive(Copy, Clone, Debug, PartialEq, Eq, Structural)]
pub enum DeviceOrientation {
    Portrait,
    LandscapeLeft,
    LandscapeRight,
}

/// The device orientation that the window's rotation shows.
pub open spec fn orientation_of(rotation: DeviceOrientation) -> UIDeviceOrientation {
    match rotation {
        DeviceOrientation::Portrait => UIDeviceOrientationPortrait,
        DeviceOrientation::LandscapeLeft => UIDeviceOrientationLandscapeLeft,
        DeviceOrientation::LandscapeRight => UIDeviceOrientationLandscapeRight,
    }
}

/// The window rotation that shows `orientation`, if the window can show it.
pub open spec fn rotation_of(orientation: UIDeviceOrientation) -> Option<DeviceOrientation> {
    if orientation == UIDeviceOrientationPortrait {
        Some(DeviceOrientation::Portrait)
    } else if orientation == UIDeviceOrientationLandscapeLeft {
        Some(DeviceOrientation::LandscapeLeft)
    } else if orientation == UIDeviceOrientationLandscapeRight {
        Some(DeviceOrientation::LandscapeRight)
    } else {
        None
    }
}

/// `-orientation`: the device orientation of the window's rotation.
pub fn orientation(rotation: DeviceOrientation) -> (o: UIDeviceOrientation)
    ensures
        o == orientation_of(rotation),
{
    match rotation {
        DeviceOrientation::Portrait => UIDeviceOrientationPortrait,
        DeviceOrientation::LandscapeLeft => UIDeviceOrientationLandscapeLeft,
        DeviceOrientation::LandscapeRight => UIDeviceOrientationLandscapeRight,
    }
}

/// `-setOrientation:`: the rotation to give the window, or `None` for an
/// orientation the window cannot show (which is ignored).
pub fn rotation_for(orientation: UIDeviceOrientation) -> (r: Option<DeviceOrientation>)
    ensures
        r == rotation_of(orientation),
{
    if orientation == UIDeviceOrientationPortrait {
        Some(DeviceOrientation::Portrait)
    } else if orientation == UIDeviceOrientationLandscapeLeft {
        Some(DeviceOrientation::LandscapeLeft)
    } else if orientation == UIDeviceOrientationLandscapeRight {
        Some(DeviceOrientation::LandscapeRight)
    } else {
        None
    }
}

/// Setting the orientation that the device reports brings back the rotation
/// it was read from, and an orientation that the window can show is the one
/// its rotation reports.
pub proof fn law_orientation_roundtrip(rotation: DeviceOrientation, orientation: UIDeviceOrientation)
    ensures
        rotation_of(orientation_of(rotation)) == Some(rotation),
        rotation_of(orientation) matches Some(r) ==> orientation_of(r) == orientation,
{
}

pub struct State {
    current_device: Option<u32>,
}

impl State {
    pub closed spec fn spec_current_device(&self) -> Option<u32> {
        self.current_device
    }

    /// Nothing created yet.
    pub fn new() -> (s: State)
        ensures
            s.spec_current_device() is None,
    {
        State { current_device: None }
    }

    /// The object, if it has been created.
    pub fn current_device(&self) -> (obj: Option<u32>)
        ensures
            obj == self.spec_current_device(),
    {
        self.current_device
    }

    /// Returns the object, which is `created` if there is none yet (the
    /// caller allocates it only in that case); it is kept from then on.
    pub fn get_or_insert(&mut self, created: u32) -> (obj: u32)
        ensures
            obj == match old(self).spec_current_device() {
                Some(o) => o,
                None => created,
            },
            final(self).spec_current_device() == Some(obj),
    {
        match self.current_device {
            Some(o) => o,
            None => {
                self.current_device = Some(created);
                created
            },
        }
    }
}

} // verus!
