use touchhle::frameworks::ad_support::as_identifier_manager::zero_uuid_string;
use touchhle::frameworks::core_animation::ca_eagl_layer::{
    composite_order, display_layers, find_fullscreen_eagl_layer, get_pixels_vec_for_presenting, present_pixels,
    LayerNode, LayerTree, PresentedPixels, WindowInfo,
};
use touchhle::frameworks::core_animation::composition::{
    force_opaque_alpha, make_9patch_indices, recomposite_if_necessary, recomposite_schedule,
    texture_step, CompositeDecision, LayerPixelSources, LayerTexture, Recomposite,
    State as CompositionState, TexturePlan, COMPOSITE_INTERVAL_NS,
};
use touchhle::frameworks::core_graphics::cg_font::{CGFontRelease, CGFontRetain, RefCountAction};
use touchhle::frameworks::foundation::ns_data::{to_rust_slice, NSDataHostObject};
use touchhle::frameworks::foundation::ns_timer::{
    advance_deadline, due_by, finish_callback, fire, invalidate, is_valid, schedule, FireAction,
    NSTimerHostObject,
};
use touchhle::frameworks::foundation::ns_url::{to_rust_path, NSURLHostObject};
use touchhle::frameworks::foundation::{ns_string_from_range, NSRange};
use touchhle::frameworks::media_player::movie_player::{
    finishes_movies_at_once, resends_finish_on_control_mode, State as MoviePlayerState, MPMoviePlayerContentPreloadDidFinishNotification,
    MPMoviePlayerPlaybackDidFinishNotification,
};
use touchhle::frameworks::uikit::ui_application::{
    delegate_plan, launch_message, launch_steps, status_bar_orientation, status_bar_rotation,
    DelegatePlan, LaunchMessage, LaunchStep, State as ApplicationState, UIApplicationHostObject,
    UILocalNotificationHostObject, UIInterfaceOrientationLandscapeLeft,
    UIInterfaceOrientationPortrait,
};
use touchhle::frameworks::uikit::ui_device::{
    orientation, rotation_for, DeviceOrientation, State as DeviceState, UIDeviceOrientationFaceUp,
    UIDeviceOrientationPortrait, UIDeviceOrientationPortraitUpsideDown,
};
use touchhle::frameworks::uikit::ui_graphics::{
    State as GraphicsState, UIGraphicsBeginImageContext, UIGraphicsEndImageContext,
    UIGraphicsGetCurrentContext, UIGraphicsPopContext, UIGraphicsPushContext,
};
use touchhle::frameworks::uikit::ui_image::State as ImageState;
use touchhle::frameworks::uikit::ui_screen::State as ScreenState;
use touchhle::frameworks::uikit::ui_touch::{
    group_touches_by_view, touch_target, State as TouchState, TouchDelivery, TouchEvent, UITouchPhaseBegan, UITouchPhaseEnded,
    UITouchPhaseMoved,
};
use touchhle::mem::Mem;

fn timer(repeats: bool) -> NSTimerHostObject {
    NSTimerHostObject {
        interval_ns: 100,
        target: 0x10,
        selector: 0x20,
        user_info: 0,
        repeats,
        due_by: None,
        is_running_callback: false,
        run_loop: 0,
    }
}

#[test]
fn timer_scheduling_sets_first_deadline_once() {
    let mut t = timer(true);
    schedule(&mut t, 0x99, 1_000);
    assert_eq!(due_by(&t), Some(1_100));
    assert_eq!(t.run_loop, 0x99);
    schedule(&mut t, 0x98, 5_000);
    assert_eq!(due_by(&t), Some(1_100));
    assert_eq!(t.run_loop, 0x98);
}

#[test]
fn repeating_timer_skips_missed_intervals() {
    let mut t = timer(true);
    schedule(&mut t, 1, 0);
    // Fired on time: one interval on.
    let action = fire(&mut t, 100);
    assert_eq!(action, FireAction::Fire { target: 0x10, selector: 0x20, remove_from_run_loop: false });
    assert_eq!(due_by(&t), Some(200));
    // Re-entering while the callback runs does nothing.
    assert_eq!(fire(&mut t, 1_000), FireAction::Skip);
    finish_callback(&mut t);
    // Fired 350 late: deadlines 300, 400 and 500 were missed; the next one
    // is the first not before now.
    fire(&mut t, 550);
    assert_eq!(due_by(&t), Some(600));
    finish_callback(&mut t);
    // Exactly on a deadline boundary.
    fire(&mut t, 800);
    assert_eq!(due_by(&t), Some(800));
}

#[test]
fn one_shot_timer_invalidates_itself() {
    let mut t = timer(false);
    schedule(&mut t, 1, 0);
    let action = fire(&mut t, 150);
    assert_eq!(action, FireAction::Fire { target: 0x10, selector: 0x20, remove_from_run_loop: true });
    assert_eq!(due_by(&t), None);
    finish_callback(&mut t);
    assert_eq!(fire(&mut t, 1_000), FireAction::Skip);
}

#[test]
fn deadline_formula() {
    assert_eq!(advance_deadline(1_000, 500, 100), 1_100);
    assert_eq!(advance_deadline(1_000, 1_000, 100), 1_100);
    assert_eq!(advance_deadline(1_000, 1_001, 100), 1_100);
    assert_eq!(advance_deadline(1_000, 1_100, 100), 1_100);
    assert_eq!(advance_deadline(1_000, 1_101, 100), 1_200);
}

#[test]
fn compositor_schedule() {
    assert_eq!(recomposite_schedule(None, 10, false), Recomposite::Now(10 + COMPOSITE_INTERVAL_NS));
    assert_eq!(recomposite_schedule(Some(500), 100, false), Recomposite::NotYet(500));
    assert_eq!(
        recomposite_schedule(Some(500), 100, true),
        Recomposite::Now(500 + COMPOSITE_INTERVAL_NS)
    );
    let late = 500 + 3 * COMPOSITE_INTERVAL_NS + 1;
    assert_eq!(
        recomposite_schedule(Some(500), late, false),
        Recomposite::Now(500 + 4 * COMPOSITE_INTERVAL_NS)
    );
}

#[test]
fn nine_patch_indices() {
    let idx = make_9patch_indices();
    assert_eq!(idx.len(), 54);
    assert_eq!(&idx[0..6], &[0, 1, 2, 2, 1, 3]);
    assert_eq!(&idx[6..12], &[4, 5, 6, 6, 5, 7]);
    assert_eq!(&idx[48..54], &[32, 33, 34, 34, 33, 35]);
}

fn node(layer: u32, sublayers: Vec<usize>) -> LayerNode {
    LayerNode {
        layer,
        hidden: false,
        transparent: false,
        is_eagl: false,
        opaque: true,
        covers_screen: true,
        needs_display: false,
        sublayers,
    }
}

#[test]
fn fullscreen_layer_search() {
    // Window layer 0 -> [1, 2]; layer 2 (front) -> [3], an EAGL layer.
    let mut nodes = vec![node(100, vec![1, 2]), node(101, vec![]), node(102, vec![3]), node(103, vec![])];
    nodes[3].is_eagl = true;
    let tree = LayerTree { nodes };
    let windows = vec![WindowInfo { hidden: false, layer: 0 }];
    assert_eq!(find_fullscreen_eagl_layer(false, &windows, None, &tree), Some(103));
    assert_eq!(find_fullscreen_eagl_layer(true, &windows, None, &tree), None);
    let hidden = vec![WindowInfo { hidden: true, layer: 0 }];
    assert_eq!(find_fullscreen_eagl_layer(false, &hidden, None, &tree), None);
    assert_eq!(find_fullscreen_eagl_layer(false, &hidden, Some(0), &tree), Some(103));

    let mut tree2 = tree;
    tree2.nodes[2].transparent = true;
    assert_eq!(find_fullscreen_eagl_layer(false, &windows, None, &tree2), None);
    tree2.nodes[2].transparent = false;
    tree2.nodes[3].is_eagl = false;
    assert_eq!(find_fullscreen_eagl_layer(false, &windows, None, &tree2), None);
    tree2.nodes[3].is_eagl = true;
    tree2.nodes[3].opaque = false;
    assert_eq!(find_fullscreen_eagl_layer(false, &windows, None, &tree2), None);
    tree2.nodes[3].opaque = true;
    tree2.nodes[3].covers_screen = false;
    assert_eq!(find_fullscreen_eagl_layer(false, &windows, None, &tree2), None);
    tree2.nodes[3].covers_screen = true;
    assert_eq!(find_fullscreen_eagl_layer(false, &windows, None, &tree2), Some(103));
}

#[test]
fn compositor_runs_only_when_needed() {
    // Window layer 0 -> [1], a plain layer: composition is needed.
    let tree = LayerTree { nodes: vec![node(100, vec![1]), node(101, vec![])] };
    let windows = vec![WindowInfo { hidden: false, layer: 0 }];
    let mut state = CompositionState { recomposite_next: None };
    let d = recomposite_if_necessary(&mut state, false, &windows, None, &tree, 1_000, false);
    assert_eq!(d, CompositeDecision::Composite(1_000 + COMPOSITE_INTERVAL_NS));
    assert_eq!(state.recomposite_next, Some(1_000 + COMPOSITE_INTERVAL_NS));
    let d = recomposite_if_necessary(&mut state, false, &windows, None, &tree, 2_000, false);
    assert_eq!(d, CompositeDecision::NotYet(1_000 + COMPOSITE_INTERVAL_NS));
    assert_eq!(state.recomposite_next, Some(1_000 + COMPOSITE_INTERVAL_NS));
    let d = recomposite_if_necessary(&mut state, false, &windows, None, &tree, 2_000, true);
    assert_eq!(d, CompositeDecision::Composite(1_000 + 2 * COMPOSITE_INTERVAL_NS));

    // No visible window: nothing happens.
    let hidden = vec![WindowInfo { hidden: true, layer: 0 }];
    let mut idle = CompositionState { recomposite_next: Some(5) };
    assert_eq!(
        recomposite_if_necessary(&mut idle, false, &hidden, None, &tree, 1_000, true),
        CompositeDecision::Skip
    );
    assert_eq!(idle.recomposite_next, Some(5));

    // An EAGL layer covers the screen: presented directly.
    let mut tree2 = tree;
    tree2.nodes[1].is_eagl = true;
    assert_eq!(
        recomposite_if_necessary(&mut idle, false, &windows, None, &tree2, 1_000, true),
        CompositeDecision::Skip
    );
    assert_eq!(
        recomposite_if_necessary(&mut idle, true, &windows, None, &tree2, 1_000, false),
        CompositeDecision::Composite(5 + COMPOSITE_INTERVAL_NS)
    );
}

#[test]
fn layers_needing_display_in_order() {
    let mut nodes = vec![node(100, vec![1, 3]), node(101, vec![2]), node(102, vec![]), node(103, vec![])];
    nodes[0].needs_display = true;
    nodes[2].needs_display = true;
    nodes[3].needs_display = true;
    let mut tree = LayerTree { nodes };
    assert_eq!(display_layers(&tree, 0), vec![100, 102, 103]);
    tree.nodes[1].hidden = true;
    assert_eq!(display_layers(&tree, 0), vec![100, 103]);
}

#[test]
fn presented_frame_is_taken_back() {
    let mut layer = PresentedPixels { presented_pixels: None, gles_texture_is_up_to_date: true };
    assert!(get_pixels_vec_for_presenting(&mut layer).is_empty());
    present_pixels(&mut layer, vec![1, 2, 3, 4], 1, 1);
    assert!(!layer.gles_texture_is_up_to_date);
    assert_eq!(get_pixels_vec_for_presenting(&mut layer), vec![1, 2, 3, 4]);
    assert!(layer.presented_pixels.is_none());
    assert!(get_pixels_vec_for_presenting(&mut layer).is_empty());
}

#[test]
fn font_reference_counting() {
    assert_eq!(CGFontRelease(0), RefCountAction::Nothing);
    assert_eq!(CGFontRelease(5), RefCountAction::Object(5));
    assert_eq!(CGFontRetain(0), (0, RefCountAction::Nothing));
    assert_eq!(CGFontRetain(7), (7, RefCountAction::Object(7)));
}

#[test]
fn range_text() {
    assert_eq!(ns_string_from_range(NSRange { location: 0, length: 0 }), b"{0, 0}".to_vec());
    assert_eq!(
        ns_string_from_range(NSRange { location: 12, length: 4294967295 }),
        b"{12, 4294967295}".to_vec()
    );
}

fn chars(s: &str) -> Vec<char> {
    s.chars().collect()
}

#[test]
fn url_paths() {
    let file = NSURLHostObject::init_file_url_with_path(chars("/tmp/a.png"), chars("/app"));
    assert!(file.is_file_url());
    assert_eq!(to_rust_path(&file), chars("/tmp/a.png"));
    let web = NSURLHostObject::init_with_string(chars("http://example.com/x")).unwrap();
    assert!(!web.is_file_url());
    assert_eq!(web.path(), None);
    assert_eq!(to_rust_path(&web), chars(""));
    assert_eq!(web.absolute_string(), &chars("http://example.com/x"));
    let rooted = NSURLHostObject::init_with_string(chars("/var/mobile")).unwrap();
    assert_eq!(to_rust_path(&rooted), chars("/var/mobile"));
    assert!(NSURLHostObject::init_with_string(chars("")).is_none());
    assert!(NSURLHostObject::init_with_string(chars("ftp://x")).is_none());
}

#[test]
fn url_descriptions() {
    let abs = NSURLHostObject::init_file_url_with_path(chars("/a/b"), chars("/wd"));
    assert_eq!(abs.description(), chars("/a/b"));
    let rel = NSURLHostObject::init_file_url_with_path(chars("././x/y"), chars("/wd"));
    assert_eq!(rel.description(), chars("x/y -- file://localhost/wd"));
    let web = NSURLHostObject::init_with_string(chars("https://a")).unwrap();
    assert_eq!(web.description(), chars("https://a"));
}

#[test]
fn data_bytes() {
    let mut mem = Mem::new(64, 0);
    mem.write_bytes(8, &vec![9, 8, 7]);
    let data = NSDataHostObject { bytes: 8, length: 3, free_when_done: false };
    assert_eq!(to_rust_slice(&mem, &data), &[9, 8, 7]);
}

#[test]
fn advertising_identifier_is_zero() {
    assert_eq!(zero_uuid_string(), b"00000000-0000-0000-0000-000000000000".to_vec());
}

#[test]
fn graphics_context_stack() {
    let mut s = GraphicsState::new();
    assert_eq!(UIGraphicsGetCurrentContext(&s), 0);
    assert_eq!(UIGraphicsPopContext(&mut s), None);
    UIGraphicsPushContext(&mut s, 5);
    UIGraphicsPushContext(&mut s, 6);
    assert_eq!(UIGraphicsGetCurrentContext(&s), 6);
    assert_eq!(UIGraphicsPopContext(&mut s), Some(6));
    assert_eq!(UIGraphicsGetCurrentContext(&s), 5);
    UIGraphicsBeginImageContext(&mut s);
    assert_eq!(UIGraphicsGetCurrentContext(&s), 0);
    assert_eq!(UIGraphicsEndImageContext(&mut s), Some(0));
    assert_eq!(UIGraphicsGetCurrentContext(&s), 5);
}

#[test]
fn singletons_are_created_once() {
    let mut d = DeviceState::new();
    assert_eq!(d.current_device(), None);
    assert_eq!(d.get_or_insert(10), 10);
    assert_eq!(d.get_or_insert(11), 10);
    let mut s = ScreenState::new();
    assert_eq!(s.get_or_insert(20), 20);
    assert_eq!(s.main_screen(), Some(20));
    let mut a = ApplicationState::new();
    assert_eq!(a.shared_application_or(30), 30);
    assert_eq!(a.shared_application_or(31), 30);
    assert!(!a.status_bar_hidden);
}

#[test]
fn application_delegate_and_launch_message() {
    assert_eq!(delegate_plan(0x50, 0, false), DelegatePlan::Retain(0x50));
    assert_eq!(delegate_plan(0x50, 0x60, true), DelegatePlan::Retain(0x50));
    assert_eq!(delegate_plan(0, 0x60, true), DelegatePlan::ApplicationItself);
    assert_eq!(delegate_plan(0, 0x60, false), DelegatePlan::Create(0x60));
    assert_eq!(launch_message(true, true), LaunchMessage::DidFinishLaunchingWithOptions);
    assert_eq!(launch_message(false, true), LaunchMessage::DidFinishLaunching);
    assert_eq!(launch_message(false, false), LaunchMessage::NoMessage);
}

#[test]
fn image_cache() {
    let mut c = ImageState::new();
    assert_eq!(c.get(b"a.png"), None);
    c.insert(b"a.png".to_vec(), 1);
    assert_eq!(c.get(b"a.png"), Some(1));
    assert!(c.trim().is_empty());
    for i in 0..10u32 {
        c.insert(format!("{i}.png").into_bytes(), 100 + i);
    }
    let evicted = c.trim();
    assert_eq!(evicted.len(), 11);
    assert_eq!(evicted[0], 1);
    assert_eq!(c.get(b"a.png"), None);
}

#[test]
fn touches_through_their_phases() {
    let mut t = TouchState::new();
    t.mark_stationary();
    t.touch_down(1, 0x100);
    t.touch_down(2, 0x200);
    assert_eq!(t.touch_for(1), Some(0x100));
    assert_eq!(t.all_touches(), vec![0x100, 0x200]);
    t.mark_stationary();
    assert_eq!(t.touch_move(1, false), None);
    assert_eq!(t.touch_move(1, true), Some(0x100));
    assert_eq!(t.touch_move(3, true), None);
    t.mark_stationary();
    assert_eq!(t.touch_up(2), Some(0x200));
    assert_eq!(t.touch_for(2), None);
    assert_eq!(t.touch_up(2), None);
    assert_eq!(t.all_touches(), vec![0x100]);
    let _ = (UITouchPhaseBegan, UITouchPhaseMoved, UITouchPhaseEnded);
}

#[test]
fn movie_notifications_wait_for_their_time() {
    let mut m = MoviePlayerState::new();
    m.queue_notification(MPMoviePlayerContentPreloadDidFinishNotification, 1, 100);
    m.start_playing(1, 50);
    m.queue_notification(MPMoviePlayerContentPreloadDidFinishNotification, 2, 300);
    assert_eq!(m.active_player(), Some(1));
    let mut due = m.take_due_notifications(120);
    due.sort_by_key(|n| n.2);
    assert_eq!(
        due,
        vec![
            (MPMoviePlayerPlaybackDidFinishNotification, 1, 50),
            (MPMoviePlayerContentPreloadDidFinishNotification, 1, 100),
        ]
    );
    assert!(m.take_due_notifications(120).is_empty());
    assert_eq!(m.take_due_notifications(300), vec![(MPMoviePlayerContentPreloadDidFinishNotification, 2, 300)]);
    assert!(m.stop(1));
    assert!(!m.stop(1));
    assert_eq!(m.active_player(), None);
}

fn delivered(d: TouchDelivery) -> (u8, Vec<u32>) {
    match d {
        TouchDelivery::Began(v) => (0, v),
        TouchDelivery::Moved(v) => (1, v),
        TouchDelivery::Ended(v) => (2, v),
    }
}

#[test]
fn touch_events_update_the_table() {
    let mut t = TouchState::new();
    let d = t.handle_event(&TouchEvent::Down(vec![(1, 0x100, false), (2, 0x200, false)]));
    assert_eq!(delivered(d), (0, vec![0x100, 0x200]));
    assert_eq!(t.all_touches(), vec![0x100, 0x200]);

    // Finger 2 changed position, finger 1 did not, finger 9 is unknown.
    let d = t.handle_event(&TouchEvent::Move(vec![(1, false), (2, true), (9, true)]));
    assert_eq!(delivered(d), (1, vec![0x200]));

    // A finger that is already down is handled as a move; the fingers
    // after it are not looked at.
    let d = t.handle_event(&TouchEvent::Down(vec![(3, 0x300, false), (1, 0x999, true), (4, 0x400, false)]));
    assert_eq!(delivered(d), (1, vec![0x100]));
    assert_eq!(t.all_touches(), vec![0x100, 0x200, 0x300]);
    assert_eq!(t.touch_for(4), None);

    let d = t.handle_event(&TouchEvent::Up(vec![2, 7, 1]));
    assert_eq!(delivered(d), (2, vec![0x200, 0x100]));
    assert_eq!(t.all_touches(), vec![0x300]);
}

#[test]
fn data_copies_and_ranges() {
    let mut mem = Mem::new(0x1000, 0x100);
    mem.write_bytes(0x10, &vec![1, 2, 3, 4, 5]);
    let d = NSDataHostObject::with_bytes(&mut mem, 0x10, 5);
    assert_eq!(d.bytes, 0x100);
    assert!(d.free_when_done);
    assert_eq!(to_rust_slice(&mem, &d), &[1, 2, 3, 4, 5]);

    let sub = d.subdata_with_range(&mut mem, NSRange { location: 1, length: 3 });
    assert_eq!(sub.bytes, 0x108);
    assert_eq!(to_rust_slice(&mem, &sub), &[2, 3, 4]);

    let same = NSDataHostObject::with_bytes_no_copy(0x10, 5, false);
    assert!(d.is_equal_to_data(&mem, &same));
    assert!(!d.is_equal_to_data(&mem, &sub));

    d.get_bytes_in_range(&mut mem, 0x40, NSRange { location: 3, length: 2 });
    assert_eq!(mem.bytes_at(0x40, 2), vec![4, 5]);
    d.get_bytes_up_to(&mut mem, 0x50, 100);
    assert_eq!(mem.bytes_at(0x50, 5), vec![1, 2, 3, 4, 5]);
    d.get_bytes(&mut mem, 0x60);
    assert_eq!(mem.bytes_at(0x60, 5), vec![1, 2, 3, 4, 5]);
    // An empty range copies nothing.
    d.get_bytes_in_range(&mut mem, 0x70, NSRange { location: 9, length: 0 });
    assert_eq!(mem.read_u8(0x70), 0);
}

#[test]
fn mutable_data_grows_and_shrinks() {
    let mut mem = Mem::new(0x1000, 0x100);
    let mut d = NSDataHostObject::with_length(&mut mem, 3);
    assert_eq!(to_rust_slice(&mem, &d), &[0, 0, 0]);
    d.replace_bytes_in_range(&mut mem, NSRange { location: 1, length: 2 }, 0x10);
    mem.write_bytes(0x10, &vec![7, 8]);
    d.replace_bytes_in_range(&mut mem, NSRange { location: 1, length: 2 }, 0x10);
    assert_eq!(to_rust_slice(&mem, &d), &[0, 7, 8]);
    d.append_bytes(&mut mem, 0x10, 2);
    assert_eq!(d.length, 5);
    assert_eq!(to_rust_slice(&mem, &d), &[0, 7, 8, 7, 8]);
    d.increase_length_by(&mut mem, 2);
    assert_eq!(to_rust_slice(&mem, &d), &[0, 7, 8, 7, 8, 0, 0]);
    d.set_length(&mut mem, 2);
    assert_eq!(to_rust_slice(&mem, &d), &[0, 7]);
    assert_eq!(d.mutable_bytes(), d.bytes);
}

#[test]
fn device_orientation_follows_rotation() {
    assert_eq!(orientation(DeviceOrientation::Portrait), UIDeviceOrientationPortrait);
    assert_eq!(orientation(DeviceOrientation::LandscapeLeft), 3);
    assert_eq!(orientation(DeviceOrientation::LandscapeRight), 4);
    for r in [DeviceOrientation::Portrait, DeviceOrientation::LandscapeLeft, DeviceOrientation::LandscapeRight] {
        assert_eq!(rotation_for(orientation(r)), Some(r));
    }
    assert_eq!(rotation_for(UIDeviceOrientationPortraitUpsideDown), None);
    assert_eq!(rotation_for(UIDeviceOrientationFaceUp), None);
    assert_eq!(rotation_for(0), None);
}

#[test]
fn application_delegate_references() {
    let mut app = UIApplicationHostObject::new();
    assert_eq!(app.set_delegate(0x10), None);
    app.retain_delegate();
    assert!(app.delegate_is_retained);
    // Replacing the retained delegate releases it once.
    assert_eq!(app.set_delegate(0x20), Some(0x10));
    assert!(!app.delegate_is_retained);
    assert_eq!(app.set_delegate(0x30), None);
    app.retain_delegate();
    assert_eq!(app.set_delegate(0x30), None);
    assert_eq!(app.delegate, 0x30);
}

#[test]
fn status_bar_orientation_and_notifications() {
    assert_eq!(status_bar_orientation(DeviceOrientation::LandscapeLeft), 3);
    assert_eq!(status_bar_rotation(UIInterfaceOrientationLandscapeLeft), DeviceOrientation::LandscapeRight);
    assert_eq!(status_bar_rotation(UIInterfaceOrientationPortrait), DeviceOrientation::Portrait);
    let n = UILocalNotificationHostObject::default();
    assert_eq!((n.fire_date, n.user_info, n.badge_number, n.has_action), (0, 0, 0, false));
}

#[test]
fn invalidated_timer_leaves_its_run_loop() {
    let mut t = timer(true);
    assert!(!is_valid(&t));
    assert_eq!(invalidate(&mut t), None);
    schedule(&mut t, 7, 0);
    assert!(is_valid(&t));
    assert_eq!(invalidate(&mut t), Some(7));
    assert!(!is_valid(&t));
    assert_eq!(t.run_loop, 0);
    assert_eq!(fire(&mut t, 1_000), FireAction::Skip);
}

#[test]
fn movies_finish_at_once_for_some_titles() {
    assert!(finishes_movies_at_once(false, b"com.ea.realracing2"));
    assert!(finishes_movies_at_once(false, b"com.firemint.flightcontrol"));
    assert!(!finishes_movies_at_once(true, b"com.ea.realracing2"));
    assert!(!finishes_movies_at_once(false, b"com.gameloft.POP"));
    assert!(!finishes_movies_at_once(false, b"com.e"));
    assert!(resends_finish_on_control_mode(b"com.ea.spore.origins"));
    assert!(!resends_finish_on_control_mode(b"com.ea.realracing2"));
}

#[test]
fn launch_steps_in_order() {
    assert_eq!(
        launch_steps(true, true, true),
        vec![
            LaunchStep::DidFinishLaunchingWithOptions,
            LaunchStep::PostDidFinishLaunching,
            LaunchStep::LayoutViews,
            LaunchStep::DidBecomeActive,
            LaunchStep::PostDidBecomeActive,
            LaunchStep::RunMainLoop,
        ]
    );
    assert_eq!(
        launch_steps(false, true, false),
        vec![
            LaunchStep::DidFinishLaunching,
            LaunchStep::PostDidFinishLaunching,
            LaunchStep::LayoutViews,
            LaunchStep::PostDidBecomeActive,
            LaunchStep::RunMainLoop,
        ]
    );
    assert_eq!(
        launch_steps(false, false, false),
        vec![
            LaunchStep::PostDidFinishLaunching,
            LaunchStep::LayoutViews,
            LaunchStep::PostDidBecomeActive,
            LaunchStep::RunMainLoop,
        ]
    );
}

#[test]
fn layer_texture_is_created_then_filled_once() {
    let presented = LayerPixelSources { presented_pixels: true, contents: false, cg_context: false };
    let mut tex = LayerTexture { texture: None, up_to_date: false };
    let plan = texture_step(&mut tex, presented, true, 42);
    assert_eq!(
        plan,
        TexturePlan {
            bind: Some(42),
            upload_presented: true,
            force_alpha: true,
            upload_contents: false,
            upload_context: false,
        }
    );
    assert_eq!(tex.texture, Some(42));
    assert!(tex.up_to_date);
    // Up to date: bound again, nothing uploaded, no new texture.
    let plan = texture_step(&mut tex, presented, true, 43);
    assert_eq!(plan.bind, Some(42));
    assert!(!plan.upload_presented && !plan.force_alpha);
    // Contents win over the bitmap context.
    let both = LayerPixelSources { presented_pixels: false, contents: true, cg_context: true };
    tex.up_to_date = false;
    let plan = texture_step(&mut tex, both, false, 44);
    assert!(plan.upload_contents && !plan.upload_context && !plan.force_alpha);
    // No pixels: nothing drawn from a texture.
    let none = LayerPixelSources { presented_pixels: false, contents: false, cg_context: false };
    let mut empty = LayerTexture { texture: None, up_to_date: false };
    assert_eq!(texture_step(&mut empty, none, true, 45).bind, None);
    assert_eq!(empty.texture, None);
}

#[test]
fn opaque_alpha_is_forced() {
    let mut pixels = vec![1u8, 2, 3, 4, 5, 6, 7, 8, 9, 10];
    force_opaque_alpha(&mut pixels);
    assert_eq!(pixels, vec![1, 2, 3, 255, 5, 6, 7, 255, 9, 10]);
}

#[test]
fn touches_are_grouped_by_view() {
    // Touches 1..5 hit views 10, 20, 10, none, 20.
    let pairs = vec![(1, 10), (2, 20), (3, 10), (4, 0), (5, 20)];
    let groups = group_touches_by_view(&pairs);
    assert_eq!(groups, vec![(10, vec![1, 3]), (20, vec![2, 5])]);
    assert!(group_touches_by_view(&vec![(1, 0)]).is_empty());
}

#[test]
fn compositing_visits_visible_layers_in_drawing_order() {
    // 0 -> [1, 3]; 1 -> [2]; 3 is hidden, and so is its sublayer 4.
    let mut tree = LayerTree {
        nodes: vec![node(100, vec![1, 3]), node(101, vec![2]), node(102, vec![]), node(103, vec![4]), node(104, vec![])],
    };
    tree.nodes[3].hidden = true;
    assert_eq!(composite_order(&tree, 0), vec![0, 1, 2]);
    assert_eq!(composite_order(&tree, 3), Vec::<usize>::new());
}

#[test]
fn touch_target_pierces_plain_views() {
    // (view, plain UIView, image view, hidden, interactive), back to front.
    let subviews = vec![(7, false, false, false, true), (8, true, false, false, true), (9, false, false, true, true)];
    // A hit on a view of the app's own class stays there.
    assert_eq!(touch_target(5, false, false, &subviews, 1), 5);
    // A hit on a plain view goes to the front-most custom interactive view.
    assert_eq!(touch_target(5, true, false, &subviews, 1), 7);
    assert_eq!(touch_target(5, false, true, &subviews, 1), 7);
    assert_eq!(touch_target(0, false, false, &subviews, 1), 7);
    // With no such subview, a plain view keeps the touch; nothing falls back
    // to the window.
    let none = vec![(8, true, false, false, true)];
    assert_eq!(touch_target(5, true, false, &none, 1), 5);
    assert_eq!(touch_target(0, false, false, &none, 1), 1);
}
