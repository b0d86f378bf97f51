//! `UIApplication`: the shared application object, its delegate, the
//! status bar, and local notifications.
use vstd::prelude::*;
use crate::frameworks::uikit::ui_device::{
    orientation_of, rotation_of, DeviceOrientation, UIDeviceOrientation,
    UIDeviceOrientationLandscapeLeft, UIDeviceOrientationLandscapeRight, UIDeviceOrientationPortrait,
    UIDeviceOrientationPortraitUpsideDown,
};

verus! {

pub struct State {
    /// The shared application object, once one has been initialised.
    pub shared_application: Option<u32>,
    pub status_bar_hidden: bool,
}

impl State {
    /// No application object yet, status bar shown.
    pub fn new() -> (s: State)
        ensures
            s.shared_application is None,
            !s.status_bar_hidden,
    {
        State { shared_application: None, status_bar_hidden: false }
    }

    /// `+sharedApplication`: the shared application object, or the freshly
    /// initialised `created` if there is none yet (the caller allocates and
    /// initialises one only in that case); it is kept from then on.
    pub fn shared_application_or(&mut self, created: u32) -> (app: u32)
        ensures
            app == match old(self).shared_application {
                Some(a) => a,
                None => created,
            },
            final(self).shared_application == Some(app),
            final(self).status_bar_hidden == old(self).status_bar_hidden,
    {
        match self.shared_application {
            Some(a) => a,
            None => {
                self.shared_application = Some(created);
                created
            },
        }
    }
}

/// How `UIApplicationMain` gives the application its delegate.
#[derive(Copy, Clone, Debug, PartialEq, Eq, Structural)]
pub enum DelegatePlan {
    /// The main nib already set this delegate; the application retains it.
    Retain(u32),
    /// The delegate class is the principal class: the application is its
    /// own delegate.
    ApplicationItself,
    /// A new object of the named delegate class becomes the delegate.
    Create(u32),
}

/// Chooses the application's delegate in `UIApplicationMain`: the one the
/// main nib set (`delegate`, or 0 for none), else the application itself
/// when the delegate class name equals the principal class name, else a new
/// object of the delegate class. Without a delegate from the nib, a delegate
/// class name must have been given.
pub fn delegate_plan(delegate: u32, delegate_class_name: u32, names_equal: bool) -> (p: DelegatePlan)
    requires
        delegate == 0 ==> delegate_class_name != 0,
    ensures
        p == if delegate != 0 {
            DelegatePlan::Retain(delegate)
        } else if names_equal {
            DelegatePlan::ApplicationItself
        } else {
            DelegatePlan::Create(delegate_class_name)
        },
{
    if delegate != 0 {
        DelegatePlan::Retain(delegate)
    } else if names_equal {
        DelegatePlan::ApplicationItself
    } else {
        DelegatePlan::Create(delegate_class_name)
    }
}

/// Which message tells the delegate that launching finished.
#[derive(Copy, Clone, Debug, PartialEq, Eq, Structural)]
pub enum LaunchMessage {
    /// `application:didFinishLaunchingWithOptions:`, with empty options.
    DidFinishLaunchingWithOptions,
    /// `applicationDidFinishLaunching:`.
    DidFinishLaunching,
    /// The delegate answers neither.
    NoMessage,
}

/// The newer `application:didFinishLaunchingWithOptions:` is preferred;
/// the older message is sent only to a delegate without the newer one.
pub fn launch_message(responds_with_options: bool, responds_without: bool) -> (m: LaunchMessage)
    ensures
        m == if responds_with_options {
            LaunchMessage::DidFinishLaunchingWithOptions
        } else if responds_without {
            LaunchMessage::DidFinishLaunching
        } else {
            LaunchMessage::NoMessage
        },
{
    if responds_with_options {
        LaunchMessage::DidFinishLaunchingWithOptions
    } else if responds_without {
        LaunchMessage::DidFinishLaunching
    } else {
        LaunchMessage::NoMessage
    }
}

/// One step of `UIApplicationMain` once the application has its delegate.
#[derive(Copy, Clone, Debug, PartialEq, Eq, Structural)]
pub enum LaunchStep {
    /// Send `application:didFinishLaunchingWithOptions:` (empty options).
    DidFinishLaunchingWithOptions,
    /// Send `applicationDidFinishLaunching:`.
    DidFinishLaunching,
    /// Post `UIApplicationDidFinishLaunchingNotification`.
    PostDidFinishLaunching,
    /// Send `layoutSubviews` to every view.
    LayoutViews,
    /// Send `applicationDidBecomeActive:`.
    DidBecomeActive,
    /// Post `UIApplicationDidBecomeActiveNotification`.
    PostDidBecomeActive,
    /// Run the main run loop, which does not return.
    RunMainLoop,
}

/// The steps of `UIApplicationMain` after the delegate is chosen, in order:
/// the launch message the delegate implements (see [launch_message]), the
/// launch notification, laying out the views, `applicationDidBecomeActive:`
/// if the delegate implements it, its notification, then the run loop.
pub open spec fn launch_sequence(
    responds_with_options: bool,
    responds_without: bool,
    responds_become_active: bool,
) -> Seq<LaunchStep> {
    (if responds_with_options {
        seq![LaunchStep::DidFinishLaunchingWithOptions]
    } else if responds_without {
        seq![LaunchStep::DidFinishLaunching]
    } else {
        Seq::empty()
    }) + seq![LaunchStep::PostDidFinishLaunching, LaunchStep::LayoutViews] + (if responds_become_active {
        seq![LaunchStep::DidBecomeActive]
    } else {
        Seq::empty()
    }) + seq![LaunchStep::PostDidBecomeActive, LaunchStep::RunMainLoop]
}

/// What launching sends and posts, for every delegate: the delegate gets
/// `applicationDidBecomeActive:` exactly when it implements it, whichever
/// launch message it answers; it gets the newer launch message exactly when
/// it implements that, and the older one exactly when it implements only
/// the older. The launch message, if any, comes first and is followed by the
/// launch notification; `applicationDidBecomeActive:` comes right before its
/// notification; the run loop comes last; each step happens at most once.
pub proof fn law_launch_steps(with_options: bool, without: bool, become_active: bool)
    ensures
        ({
            let s = launch_sequence(with_options, without, become_active);
            let sent = with_options || without;
            &&& s.contains(LaunchStep::DidBecomeActive) <==> become_active
            &&& s.contains(LaunchStep::DidFinishLaunchingWithOptions) <==> with_options
            &&& s.contains(LaunchStep::DidFinishLaunching) <==> (!with_options && without)
            &&& s.len() == 4 + (if sent { 1int } else { 0 }) + (if become_active { 1int } else { 0 })
            &&& s[if sent { 1int } else { 0 }] == LaunchStep::PostDidFinishLaunching
            &&& s[if sent { 2int } else { 1 }] == LaunchStep::LayoutViews
            &&& become_active ==> s[s.len() - 3] == LaunchStep::DidBecomeActive
            &&& s[s.len() - 2] == LaunchStep::PostDidBecomeActive
            &&& s.last() == LaunchStep::RunMainLoop
            &&& forall|i: int, j: int| 0 <= i < j < s.len() ==> s[i] != s[j]
        }),
{
    let s = launch_sequence(with_options, without, become_active);
    let m = if with_options {
        seq![LaunchStep::DidFinishLaunchingWithOptions]
    } else if without {
        seq![LaunchStep::DidFinishLaunching]
    } else {
        Seq::<LaunchStep>::empty()
    };
    let a = if become_active {
        seq![LaunchStep::DidBecomeActive]
    } else {
        Seq::<LaunchStep>::empty()
    };
    assert(s =~= m + seq![LaunchStep::PostDidFinishLaunching, LaunchStep::LayoutViews] + a + seq![
        LaunchStep::PostDidBecomeActive,
        LaunchStep::RunMainLoop,
    ]);
    let n = m.len() as int;
    let k = a.len() as int;
    assert(s.len() == n + 4 + k);
    assert forall|i: int| 0 <= i < s.len() implies (#[trigger] s[i] == LaunchStep::DidBecomeActive
        <==> (become_active && i == n + 2)) && (s[i] == LaunchStep::DidFinishLaunchingWithOptions
        <==> (with_options && i == 0)) && (s[i] == LaunchStep::DidFinishLaunching <==> (!with_options
        && without && i == 0)) && (s[i] == LaunchStep::PostDidFinishLaunching <==> i == n) && (s[i]
        == LaunchStep::LayoutViews <==> i == n + 1) && (s[i] == LaunchStep::PostDidBecomeActive
        <==> i == n + 2 + k) && (s[i] == LaunchStep::RunMainLoop <==> i == n + 3 + k) by {
        if i < n {
        } else if i < n + 2 {
        } else if i < n + 2 + k {
        } else {
        }
    }
    if become_active {
        assert(s[n + 2] == LaunchStep::DidBecomeActive);
    }
    if with_options {
        assert(s[0] == LaunchStep::DidFinishLaunchingWithOptions);
    }
    if !with_options && without {
        assert(s[0] == LaunchStep::DidFinishLaunching);
    }
}

/// The steps the emulator carries out, in order, to launch an application
/// whose delegate answers the given messages (see [launch_sequence]).
pub fn launch_steps(
    responds_with_options: bool,
    responds_without: bool,
    responds_become_active: bool,
) -> (steps: Vec<LaunchStep>)
    ensures
        steps@ == launch_sequence(responds_with_options, responds_without, responds_become_active),
{
    let mut steps: Vec<LaunchStep> = Vec::new();
    match launch_message(responds_with_options, responds_without) {
        LaunchMessage::DidFinishLaunchingWithOptions => steps.push(
            LaunchStep::DidFinishLaunchingWithOptions,
        ),
        LaunchMessage::DidFinishLaunching => steps.push(LaunchStep::DidFinishLaunching),
        LaunchMessage::NoMessage => {},
    }
    steps.push(LaunchStep::PostDidFinishLaunching);
    steps.push(LaunchStep::LayoutViews);
    if responds_become_active {
        steps.push(LaunchStep::DidBecomeActive);
    }
    steps.push(LaunchStep::PostDidBecomeActive);
    steps.push(LaunchStep::RunMainLoop);
    assert(steps@ =~= launch_sequence(responds_with_options, responds_without, responds_become_active));
    steps
}

/// An interface orientation. The landscape ones are named after the side
/// the home button is on, so they are the device orientations the other way
/// round.
pub type UIInterfaceOrientation = UIDeviceOrientation;
pub const UIInterfaceOrientationPortrait: UIInterfaceOrientation = UIDeviceOrientationPortrait;
pub const UIInterfaceOrientationPortraitUpsideDown: UIInterfaceOrientation =
    UIDeviceOrientationPortraitUpsideDown;
pub const UIInterfaceOrientationLandscapeLeft: UIInterfaceOrientation =
    UIDeviceOrientationLandscapeRight;
pub const UIInterfaceOrientationLandscapeRight: UIInterfaceOrientation =
    UIDeviceOrientationLandscapeLeft;

/// `-statusBarOrientation`: the orientation of the window's rotation.
pub fn status_bar_orientation(rotation: DeviceOrientation) -> (o: UIInterfaceOrientation)
    ensures
        o == orientation_of(rotation),
{
    crate::frameworks::uikit::ui_device::orientation(rotation)
}

/// `-setStatusBarOrientation:`: the rotation to give the window. Only the
/// portrait and landscape orientations are supported.
pub fn status_bar_rotation(orientation: UIInterfaceOrientation) -> (r: DeviceOrientation)
    requires
        rotation_of(orientation) is Some,
    ensures
        Some(r) == rotation_of(orientation),
{
    crate::frameworks::uikit::ui_device::rotation_for(orientation).unwrap()
}

/// The application object's own state.
pub struct UIApplicationHostObject {
    /// The delegate, or nil (0).
    pub delegate: u32,
    /// The application holds a reference to the delegate (one that the
    /// main nib set).
    pub delegate_is_retained: bool,
}

impl UIApplicationHostObject {
    /// No delegate yet.
    pub fn new() -> (h: Self)
        ensures
            h.delegate == 0,
            !h.delegate_is_retained,
    {
        UIApplicationHostObject { delegate: 0, delegate_is_retained: false }
    }

    /// `UIApplicationMain` keeps a reference to the delegate that the main
    /// nib set; the caller retains it.
    pub fn retain_delegate(&mut self)
        ensures
            final(self).delegate == old(self).delegate,
            final(self).delegate_is_retained,
    {
        self.delegate_is_retained = true;
    }

    /// `-setDelegate:`: the application does not retain a delegate that is
    /// set this way. Returns the delegate to release, if the application held
    /// a reference to the old one and it is replaced by another.
    pub fn set_delegate(&mut self, delegate: u32) -> (release: Option<u32>)
        ensures
            final(self).delegate == delegate,
            !final(self).delegate_is_retained,
            release == if old(self).delegate_is_retained && old(self).delegate != delegate {
                Some(old(self).delegate)
            } else {
                None
            },
    {
        let old_delegate = self.delegate;
        self.delegate = delegate;
        if self.delegate_is_retained {
            self.delegate_is_retained = false;
            if delegate != old_delegate {
                return Some(old_delegate);
            }
        }
        None
    }
}

/// A local notification. Notifications are never delivered; the object
/// keeps what it is given.
pub struct UILocalNotificationHostObject {
    pub fire_date: u32,
    pub time_zone: u32,
    pub alert_body: u32,
    pub alert_action: u32,
    pub sound_name: u32,
    pub user_info: u32,
    pub alert_launch_image: u32,
    pub badge_number: i32,
    pub repeat_interval: i32,
    pub has_action: bool,
}

impl Default for UILocalNotificationHostObject {
    /// Every object nil, every number 0, no action.
    fn default() -> (n: Self)
        ensures
            n.fire_date == 0 && n.time_zone == 0 && n.alert_body == 0 && n.alert_action == 0
                && n.sound_name == 0 && n.user_info == 0 && n.alert_launch_image == 0,
            n.badge_number == 0 && n.repeat_interval == 0 && !n.has_action,
    {
        UILocalNotificationHostObject {
            fire_date: 0,
            time_zone: 0,
            alert_body: 0,
            alert_action: 0,
            sound_name: 0,
            user_info: 0,
            alert_launch_image: 0,
            badge_number: 0,
            repeat_interval: 0,
            has_action: false,
        }
    }
}

} // verus!
