use wolf_dual_screen::compositor::{
    check_popup_configure, CommitOutcome, Fatal, FocusTarget, Lifecycle, PendingWindow, State,
    XwmId,
};
use wolf_dual_screen::geometry::{Point, Rectangle, Size};
use wolf_dual_screen::output::{Output, OutputMode};
use wolf_dual_screen::routing::OutputKind;
use wolf_dual_screen::space::WindowId;
use wolf_dual_screen::xwm::{
    clears_selection, forwards_selection, MapRequestOutcome, SelectionTarget, UnmapOutcome,
    X11Request, X11Response, X11Window,
};

const ORIGIN: Point = Point { x: 0, y: 0 };
const NONE: Size = Size { w: 0, h: 0 };

fn output(w: i32, h: i32) -> Output {
    Output {
        mode: Some(OutputMode {
            size: Size { w: 2 * w, h: 2 * h },
            refresh: 60_000,
            logical_size: Size { w, h },
        }),
    }
}

fn dual() -> State {
    let mut s = State::new();
    s.enable_multi_output();
    s.output = Some(output(1920, 1080));
    s.secondary_output = Some(output(1280, 720));
    s
}

fn x11(window: u32, connection: u64) -> X11Window {
    X11Window {
        window,
        connection: Some(XwmId { id: connection }),
        override_redirect: false,
        geometry: Rectangle { loc: Point { x: 10, y: 20 }, size: Size { w: 300, h: 200 } },
    }
}

fn map_native(s: &mut State, surface: u64) -> CommitOutcome {
    assert!(s.new_toplevel(surface));
    let first = s.commit(surface, NONE, None);
    assert!(matches!(first, CommitOutcome::Configure { .. }));
    s.commit(surface, NONE, None)
}

#[test]
fn new_state_is_empty() {
    let s = State::new();
    assert_eq!(s.space.len(), 0);
    assert_eq!(s.secondary_space.len(), 0);
    assert_eq!(s.output, None);
    assert_eq!(s.secondary_output, None);
    assert!(s.pending_windows.is_empty());
    assert_eq!(s.focus, None);
    assert_eq!(s.toplevel_count, 0);
    assert!(!s.multi_output_enabled);
    assert_eq!(s.xwm, None);
}

#[test]
fn scenario_two_toplevels_then_a_third() {
    let mut s = dual();
    assert_eq!(map_native(&mut s, 1), CommitOutcome::Mapped { target: OutputKind::Primary });
    assert_eq!(map_native(&mut s, 2), CommitOutcome::Mapped { target: OutputKind::Secondary });
    assert_eq!(s.space.location_of(WindowId::Native(1)), Some(ORIGIN));
    assert_eq!(s.secondary_space.location_of(WindowId::Native(2)), Some(ORIGIN));
    assert_eq!(s.space.len(), 1);
    assert_eq!(s.secondary_space.len(), 1);

    assert_eq!(map_native(&mut s, 3), CommitOutcome::Mapped { target: OutputKind::Primary });
    assert_eq!(s.space.location_of(WindowId::Native(3)), Some(ORIGIN));
    assert!(s.space.contains(WindowId::Native(1)));
    assert!(s.space.contains(WindowId::Native(3)));
    assert_eq!(s.space.len(), 2);
    assert_eq!(s.secondary_space.len(), 1);
    assert_eq!(s.toplevel_count, 3);
    assert_eq!(s.focus, Some(FocusTarget { window: WindowId::Native(3), connection: None }));
    assert!(s.pending_windows.is_empty());
}

#[test]
fn scenario_with_x11_windows() {
    let mut s = dual();
    let first = s.map_window_request(x11(11, 1), true);
    assert_eq!(
        first,
        MapRequestOutcome::Mapped {
            target: OutputKind::Primary,
            configure: Some(Rectangle { loc: ORIGIN, size: Size { w: 1920, h: 1080 } }),
        }
    );
    let second = s.map_window_request(x11(12, 1), true);
    assert_eq!(
        second,
        MapRequestOutcome::Mapped {
            target: OutputKind::Secondary,
            configure: Some(Rectangle { loc: ORIGIN, size: Size { w: 1280, h: 720 } }),
        }
    );
    let third = s.map_window_request(x11(13, 1), true);
    assert!(matches!(third, MapRequestOutcome::Mapped { target: OutputKind::Primary, .. }));
    assert_eq!(s.space.location_of(WindowId::X11(11)), Some(ORIGIN));
    assert_eq!(s.space.location_of(WindowId::X11(13)), Some(ORIGIN));
    assert_eq!(s.secondary_space.location_of(WindowId::X11(12)), Some(ORIGIN));
    assert_eq!(s.toplevel_count, 3);
    assert_eq!(
        s.focus,
        Some(FocusTarget { window: WindowId::X11(13), connection: Some(XwmId { id: 1 }) })
    );
}

#[test]
fn single_output_sends_everything_to_primary() {
    let mut s = State::new();
    s.output = Some(output(800, 600));
    s.secondary_output = Some(output(640, 480));
    for surface in 1..6u64 {
        assert_eq!(
            map_native(&mut s, surface),
            CommitOutcome::Mapped { target: OutputKind::Primary }
        );
    }
    for window in 1..4u32 {
        assert!(matches!(
            s.map_window_request(x11(window, 1), true),
            MapRequestOutcome::Mapped { target: OutputKind::Primary, .. }
        ));
    }
    assert_eq!(s.space.len(), 8);
    assert_eq!(s.secondary_space.len(), 0);
}

#[test]
fn first_commit_configures_fullscreen_at_output_size() {
    let mut s = dual();
    assert!(s.new_toplevel(1));
    assert_eq!(s.lifecycle(WindowId::Native(1)), Some(Lifecycle::Pending));
    assert_eq!(
        s.commit(1, NONE, None),
        CommitOutcome::Configure {
            target: OutputKind::Primary,
            size: Some(Size { w: 1920, h: 1080 }),
            fullscreen: true,
        }
    );
    assert_eq!(s.lifecycle(WindowId::Native(1)), Some(Lifecycle::Configured));
    assert_eq!(
        s.pending_windows,
        vec![PendingWindow { window: WindowId::Native(1), configured: true }]
    );
    assert_eq!(s.space.len(), 0);
    assert_eq!(s.toplevel_count, 0);
    assert_eq!(s.focus, None);
    assert_eq!(s.commit(1, NONE, None), CommitOutcome::Mapped { target: OutputKind::Primary });
    assert_eq!(s.lifecycle(WindowId::Native(1)), Some(Lifecycle::Mapped));
    assert_eq!(s.commit(1, NONE, None), CommitOutcome::Committed { space: OutputKind::Primary });
    assert_eq!(s.toplevel_count, 1);
}

#[test]
fn second_toplevel_is_sized_to_the_secondary_output() {
    let mut s = dual();
    map_native(&mut s, 1);
    assert!(s.new_toplevel(2));
    assert_eq!(
        s.commit(2, NONE, None),
        CommitOutcome::Configure {
            target: OutputKind::Secondary,
            size: Some(Size { w: 1280, h: 720 }),
            fullscreen: true,
        }
    );
}

#[test]
fn client_with_its_own_size_is_only_activated() {
    let mut s = dual();
    assert!(s.new_toplevel(1));
    assert_eq!(
        s.commit(1, Size { w: 640, h: 0 }, None),
        CommitOutcome::Configure { target: OutputKind::Primary, size: None, fullscreen: false }
    );
}

#[test]
fn commit_without_output_is_deferred() {
    let mut s = State::new();
    assert!(s.new_toplevel(1));
    assert_eq!(s.commit(1, NONE, None), CommitOutcome::Deferred);
    assert_eq!(
        s.pending_windows,
        vec![PendingWindow { window: WindowId::Native(1), configured: false }]
    );
    s.output = Some(Output { mode: None });
    assert_eq!(s.commit(1, NONE, None), CommitOutcome::Deferred);
    assert_eq!(
        s.commit(1, Size { w: 1, h: 1 }, None),
        CommitOutcome::Configure { target: OutputKind::Primary, size: None, fullscreen: false }
    );
    s.output = None;
    assert_eq!(s.commit(1, NONE, None), CommitOutcome::Deferred);
    assert_eq!(s.lifecycle(WindowId::Native(1)), Some(Lifecycle::Configured));
    s.output = Some(output(10, 10));
    assert_eq!(s.commit(1, NONE, None), CommitOutcome::Mapped { target: OutputKind::Primary });
}

#[test]
fn pending_queue_swaps_the_last_entry_in() {
    let mut s = dual();
    assert!(s.new_toplevel(1));
    assert!(s.new_toplevel(2));
    assert!(s.new_toplevel(3));
    assert!(!s.new_toplevel(2));
    assert!(matches!(s.commit(1, NONE, None), CommitOutcome::Configure { .. }));
    assert_eq!(
        s.pending_windows,
        vec![
            PendingWindow { window: WindowId::Native(3), configured: false },
            PendingWindow { window: WindowId::Native(2), configured: false },
            PendingWindow { window: WindowId::Native(1), configured: true },
        ]
    );
    assert_eq!(s.pending_position(WindowId::Native(2)), Some(1));
    assert_eq!(s.pending_position(WindowId::Native(9)), None);
}

#[test]
fn popups_are_configured_once_and_never_routed() {
    let mut s = dual();
    assert_eq!(s.commit(40, NONE, Some(false)), CommitOutcome::ConfigurePopup);
    assert_eq!(s.commit(40, NONE, Some(true)), CommitOutcome::Ignored);
    assert_eq!(s.space.len(), 0);
    assert_eq!(s.secondary_space.len(), 0);
    assert_eq!(s.toplevel_count, 0);
    assert_eq!(s.commit(41, NONE, None), CommitOutcome::Ignored);
    assert_eq!(check_popup_configure(true), Ok(()));
    assert_eq!(check_popup_configure(false), Err(Fatal::PopupConfigureFailed));
}

#[test]
fn refused_map_request_changes_nothing() {
    let mut s = dual();
    assert_eq!(s.map_window_request(x11(11, 1), false), MapRequestOutcome::Refused);
    assert_eq!(s.space.len(), 0);
    assert_eq!(s.toplevel_count, 0);
    assert_eq!(s.focus, None);
}

#[test]
fn map_request_without_mode_skips_the_configure() {
    let mut s = State::new();
    assert_eq!(
        s.map_window_request(x11(11, 1), true),
        MapRequestOutcome::Mapped { target: OutputKind::Primary, configure: None }
    );
    s.output = Some(Output { mode: None });
    assert_eq!(
        s.map_window_request(x11(12, 1), true),
        MapRequestOutcome::Mapped { target: OutputKind::Primary, configure: None }
    );
    assert_eq!(s.space.len(), 2);
}

#[test]
fn window_mapped_again_stays_with_its_space() {
    let mut s = dual();
    s.map_window_request(x11(11, 1), true);
    s.map_window_request(x11(12, 1), true);
    assert!(s.unmapped_window(x11(11, 1)).space.is_some());
    assert_eq!(s.space.len(), 0);
    assert!(matches!(
        s.map_window_request(x11(12, 1), true),
        MapRequestOutcome::Mapped { target: OutputKind::Secondary, .. }
    ));
    assert_eq!(s.space.len(), 0);
    assert_eq!(s.secondary_space.len(), 1);
    assert_eq!(s.toplevel_count, 3);
}

#[test]
fn override_redirect_goes_to_primary_where_it_asks() {
    let mut s = dual();
    s.map_window_request(x11(11, 1), true);
    let mut menu = x11(50, 1);
    menu.override_redirect = true;
    menu.geometry.loc = Point { x: 33, y: 44 };
    s.mapped_override_redirect_window(menu);
    assert_eq!(s.space.location_of(WindowId::X11(50)), Some(Point { x: 33, y: 44 }));
    assert_eq!(s.secondary_space.len(), 0);
    assert_eq!(s.toplevel_count, 1);
    assert_eq!(
        s.focus,
        Some(FocusTarget { window: WindowId::X11(11), connection: Some(XwmId { id: 1 }) })
    );
    assert_eq!(
        s.unmapped_window(menu),
        UnmapOutcome { space: Some(OutputKind::Primary), mark_unmapped: false }
    );
}

#[test]
fn unmap_removes_from_the_one_space_and_is_idempotent() {
    let mut s = dual();
    s.map_window_request(x11(11, 1), true);
    s.map_window_request(x11(12, 1), true);
    s.map_window_request(x11(13, 1), true);
    assert_eq!(
        s.unmapped_window(x11(12, 1)),
        UnmapOutcome { space: Some(OutputKind::Secondary), mark_unmapped: true }
    );
    assert_eq!(s.space.len(), 2);
    assert_eq!(s.secondary_space.len(), 0);
    assert_eq!(
        s.unmapped_window(x11(12, 1)),
        UnmapOutcome { space: None, mark_unmapped: true }
    );
    assert_eq!(s.space.len(), 2);
    assert_eq!(s.secondary_space.len(), 0);
    assert_eq!(
        s.focus,
        Some(FocusTarget { window: WindowId::X11(13), connection: Some(XwmId { id: 1 }) })
    );
    assert_eq!(
        s.destroyed_window(x11(13, 1)),
        UnmapOutcome { space: Some(OutputKind::Primary), mark_unmapped: true }
    );
    assert_eq!(s.focus, None);
    assert_eq!(s.space.len(), 1);
    assert!(s.space.contains(WindowId::X11(11)));
    assert!(!s.remove_window(WindowId::Native(11)));
    assert_eq!(s.space.len(), 1);
}

#[test]
fn configure_notify_moves_the_window_where_it_is() {
    let mut s = dual();
    s.map_window_request(x11(11, 1), true);
    s.map_window_request(x11(12, 1), true);
    let to = Rectangle { loc: Point { x: 7, y: 9 }, size: Size { w: 1, h: 1 } };
    assert_eq!(s.configure_notify(x11(12, 1), to), Some(OutputKind::Secondary));
    assert_eq!(s.secondary_space.location_of(WindowId::X11(12)), Some(Point { x: 7, y: 9 }));
    assert_eq!(s.space.location_of(WindowId::X11(11)), Some(ORIGIN));
    assert_eq!(s.configure_notify(x11(99, 1), to), None);
    assert_eq!(
        s.focus,
        Some(FocusTarget { window: WindowId::X11(12), connection: Some(XwmId { id: 1 }) })
    );
}

#[test]
fn fullscreen_uses_the_output_of_the_holding_space() {
    let mut s = dual();
    s.map_window_request(x11(11, 1), true);
    s.map_window_request(x11(12, 1), true);
    assert_eq!(
        s.fullscreen_request(x11(11, 1)),
        Some(Rectangle { loc: ORIGIN, size: Size { w: 1920, h: 1080 } })
    );
    assert_eq!(
        s.fullscreen_request(x11(12, 1)),
        Some(Rectangle { loc: ORIGIN, size: Size { w: 1280, h: 720 } })
    );
    assert_eq!(
        s.fullscreen_request(x11(77, 1)),
        Some(Rectangle { loc: ORIGIN, size: Size { w: 1920, h: 1080 } })
    );
    s.output = None;
    assert_eq!(s.fullscreen_request(x11(11, 1)), None);
    s.secondary_output = Some(Output { mode: None });
    assert_eq!(s.fullscreen_request(x11(12, 1)), None);
}

#[test]
fn configure_request_changes_size_only() {
    let s = State::new();
    let w = x11(11, 1);
    assert_eq!(
        s.configure_request(w, Some(1), Some(2), Some(640), None),
        Rectangle { loc: Point { x: 10, y: 20 }, size: Size { w: 640, h: 200 } }
    );
    assert_eq!(
        s.configure_request(w, None, None, None, Some(480)),
        Rectangle { loc: Point { x: 10, y: 20 }, size: Size { w: 300, h: 480 } }
    );
    assert_eq!(
        s.configure_request(w, None, None, Some(u32::MAX), Some(0x8000_0000)),
        Rectangle { loc: Point { x: 10, y: 20 }, size: Size { w: -1, h: i32::MIN } }
    );
    assert_eq!(
        s.configure_request(w, None, None, Some(0x7fff_ffff), None).size.w,
        i32::MAX
    );
}

#[test]
fn interactive_move_and_resize_are_turned_down() {
    let s = State::new();
    assert!(!s.resize_request(x11(11, 1), 1));
    assert!(!s.move_request(x11(11, 1), 1));
}

#[test]
fn selection_access_follows_the_focus() {
    let mut s = dual();
    let a = XwmId { id: 1 };
    let b = XwmId { id: 2 };
    assert!(!s.allow_selection_access(a, SelectionTarget::Clipboard));
    s.map_window_request(x11(11, 2), true);
    s.map_window_request(x11(12, 1), true);
    assert!(s.allow_selection_access(a, SelectionTarget::Clipboard));
    assert!(s.allow_selection_access(a, SelectionTarget::Primary));
    assert!(!s.allow_selection_access(b, SelectionTarget::Clipboard));
    map_native(&mut s, 5);
    assert!(!s.allow_selection_access(a, SelectionTarget::Clipboard));
    assert!(!s.allow_selection_access(b, SelectionTarget::Clipboard));
    let mut orphan = x11(13, 1);
    orphan.connection = None;
    s.map_window_request(orphan, true);
    assert!(!s.allow_selection_access(a, SelectionTarget::Clipboard));
}

#[test]
fn only_the_clipboard_is_forwarded() {
    assert!(forwards_selection(SelectionTarget::Clipboard));
    assert!(!forwards_selection(SelectionTarget::Primary));
    assert!(clears_selection(SelectionTarget::Clipboard, true));
    assert!(!clears_selection(SelectionTarget::Clipboard, false));
    assert!(!clears_selection(SelectionTarget::Primary, true));
}

#[test]
fn disconnect_keeps_the_windows() {
    let mut s = dual();
    s.xwm_connected(XwmId { id: 1 });
    assert_eq!(s.xwm, Some(XwmId { id: 1 }));
    s.map_window_request(x11(11, 1), true);
    map_native(&mut s, 1);
    s.disconnected(XwmId { id: 1 });
    assert_eq!(s.xwm, None);
    assert_eq!(s.space.len(), 1);
    assert_eq!(s.secondary_space.len(), 1);
    assert_eq!(map_native(&mut s, 2), CommitOutcome::Mapped { target: OutputKind::Primary });
}

#[test]
fn routing_helpers() {
    let mut s = dual();
    assert_eq!(s.route(), OutputKind::Primary);
    assert_eq!(s.output_of(OutputKind::Secondary), Some(output(1280, 720)));
    assert_eq!(s.holder(WindowId::X11(1)), None);
    s.place(OutputKind::Secondary, WindowId::X11(1), Point { x: 1, y: 2 });
    assert_eq!(s.holder(WindowId::X11(1)), Some(OutputKind::Secondary));
    s.place(OutputKind::Primary, WindowId::X11(1), Point { x: 3, y: 4 });
    assert_eq!(s.holder(WindowId::X11(1)), Some(OutputKind::Primary));
    assert_eq!(s.secondary_space.len(), 0);
    assert_eq!(s.route(), OutputKind::Secondary);
    assert_eq!(output(5, 6).current_fill_size(), Some(Size { w: 5, h: 6 }));
    assert_eq!(Output { mode: None }.current_fill_size(), None);
}

#[test]
fn commit_waits_for_the_primary_output_even_when_routed_to_secondary() {
    let mut s = State::new();
    s.enable_multi_output();
    s.secondary_output = Some(output(1280, 720));
    assert!(matches!(
        s.map_window_request(x11(11, 1), true),
        MapRequestOutcome::Mapped { target: OutputKind::Primary, .. }
    ));
    assert_eq!(s.route(), OutputKind::Secondary);
    assert!(!s.can_route());
    assert!(s.new_toplevel(1));

    assert_eq!(s.commit(1, NONE, None), CommitOutcome::Deferred);
    assert_eq!(s.commit(1, Size { w: 10, h: 10 }, None), CommitOutcome::Deferred);
    assert_eq!(
        s.pending_windows,
        vec![PendingWindow { window: WindowId::Native(1), configured: false }]
    );
    assert_eq!(s.space.len(), 1);
    assert_eq!(s.secondary_space.len(), 0);
    assert_eq!(s.toplevel_count, 1);

    s.output = Some(output(1920, 1080));
    assert!(s.can_route());
    assert_eq!(
        s.commit(1, NONE, None),
        CommitOutcome::Configure {
            target: OutputKind::Secondary,
            size: Some(Size { w: 1280, h: 720 }),
            fullscreen: true,
        }
    );
    s.output = None;
    assert_eq!(s.commit(1, NONE, None), CommitOutcome::Deferred);
    assert_eq!(s.lifecycle(WindowId::Native(1)), Some(Lifecycle::Configured));
    assert_eq!(s.secondary_space.len(), 0);
    assert_eq!(
        s.focus,
        Some(FocusTarget { window: WindowId::X11(11), connection: Some(XwmId { id: 1 }) })
    );
    s.output = Some(output(1920, 1080));
    assert_eq!(s.commit(1, NONE, None), CommitOutcome::Mapped { target: OutputKind::Secondary });
    assert_eq!(s.secondary_space.location_of(WindowId::Native(1)), Some(ORIGIN));
}

#[test]
fn the_count_of_top_levels_starts_again_after_the_largest_value() {
    let mut s = dual();
    s.toplevel_count = u64::MAX - 1;
    s.map_window_request(x11(11, 1), true);
    assert_eq!(s.toplevel_count, u64::MAX);
    s.map_window_request(x11(12, 1), true);
    assert_eq!(s.toplevel_count, 0);
    assert_eq!(map_native(&mut s, 1), CommitOutcome::Mapped { target: OutputKind::Primary });
    assert_eq!(s.toplevel_count, 1);
    assert_eq!(s.space.len(), 2);
    assert_eq!(s.secondary_space.len(), 1);
}

#[test]
fn requests_are_dropped_while_no_window_manager_is_connected() {
    let mut s = dual();
    let a = XwmId { id: 1 };
    let w = x11(11, 1);
    let to = Rectangle { loc: Point { x: 7, y: 9 }, size: Size { w: 1, h: 1 } };
    let requests = [
        X11Request::MapWindow { window: w, marked: true },
        X11Request::MappedOverrideRedirect { window: w },
        X11Request::Unmapped { window: w },
        X11Request::Destroyed { window: w },
        X11Request::Configure { window: w, x: None, y: None, w: Some(5), h: None },
        X11Request::ConfigureNotify { window: w, geometry: to },
        X11Request::Fullscreen { window: w },
        X11Request::Resize { window: w, button: 1 },
        X11Request::Move { window: w, button: 1 },
        X11Request::SelectionAccess { selection: SelectionTarget::Clipboard },
    ];
    for request in requests {
        assert_eq!(s.handle_x11(a, request), X11Response::NotConnected);
    }
    assert_eq!(s.space.len(), 0);
    assert_eq!(s.toplevel_count, 0);
    assert_eq!(s.focus, None);

    s.xwm_connected(a);
    assert_eq!(
        s.handle_x11(a, requests[0]),
        X11Response::Mapping(MapRequestOutcome::Mapped {
            target: OutputKind::Primary,
            configure: Some(Rectangle { loc: ORIGIN, size: Size { w: 1920, h: 1080 } }),
        })
    );
    assert_eq!(
        s.handle_x11(a, requests[4]),
        X11Response::Configure(Rectangle {
            loc: Point { x: 10, y: 20 },
            size: Size { w: 5, h: 200 }
        })
    );
    assert_eq!(s.handle_x11(a, requests[5]), X11Response::Moved(Some(OutputKind::Primary)));
    assert_eq!(s.space.location_of(WindowId::X11(11)), Some(Point { x: 7, y: 9 }));
    assert_eq!(
        s.handle_x11(a, requests[6]),
        X11Response::Fullscreen(Some(Rectangle { loc: ORIGIN, size: Size { w: 1920, h: 1080 } }))
    );
    assert_eq!(s.handle_x11(a, requests[7]), X11Response::Rejected);
    assert_eq!(s.handle_x11(a, requests[8]), X11Response::Rejected);
    assert_eq!(s.handle_x11(a, requests[9]), X11Response::SelectionAccess(true));
    assert_eq!(
        s.handle_x11(XwmId { id: 2 }, requests[9]),
        X11Response::SelectionAccess(false)
    );
    let mut menu = x11(50, 1);
    menu.override_redirect = true;
    assert_eq!(
        s.handle_x11(a, X11Request::MappedOverrideRedirect { window: menu }),
        X11Response::Shown
    );
    assert_eq!(s.space.len(), 2);
    assert_eq!(
        s.handle_x11(a, X11Request::Destroyed { window: menu }),
        X11Response::Unmapping(UnmapOutcome {
            space: Some(OutputKind::Primary),
            mark_unmapped: false
        })
    );

    s.disconnected(a);
    for request in requests {
        assert_eq!(s.handle_x11(a, request), X11Response::NotConnected);
    }
    assert_eq!(s.space.len(), 1);
    assert_eq!(s.toplevel_count, 1);
    assert_eq!(map_native(&mut s, 1), CommitOutcome::Mapped { target: OutputKind::Secondary });

    s.xwm_connected(a);
    assert_eq!(
        s.handle_x11(a, requests[2]),
        X11Response::Unmapping(UnmapOutcome {
            space: Some(OutputKind::Primary),
            mark_unmapped: true
        })
    );
    assert_eq!(s.space.len(), 0);
}
