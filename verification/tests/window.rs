use wolf_dual_screen::compositor::{CommitOutcome, FocusTarget, Lifecycle, State, XwmId};
use wolf_dual_screen::output::{Output, OutputMode};
use wolf_dual_screen::routing::OutputKind;
use wolf_dual_screen::geometry::{Point, Rectangle, Size};
use wolf_dual_screen::space::WindowId;
use wolf_dual_screen::window::{ConfigureRequest, Window};
use wolf_dual_screen::xwm::X11Window;

fn rect(x: i32, y: i32, w: i32, h: i32) -> Rectangle {
    Rectangle { loc: Point { x, y }, size: Size { w, h } }
}

#[test]
fn the_two_kinds_of_window_share_their_capabilities() {
    let native = Window::NativeSurface { surface: 4, geometry: rect(0, 0, 10, 20) };
    let x11 = Window::X11Window(X11Window {
        window: 4,
        connection: Some(XwmId { id: 2 }),
        override_redirect: true,
        geometry: rect(5, 6, 7, 8),
    });
    assert_eq!(native.id(), WindowId::Native(4));
    assert_eq!(x11.id(), WindowId::X11(4));
    assert_ne!(native.id(), x11.id());
    assert_eq!(native.geometry(), rect(0, 0, 10, 20));
    assert_eq!(x11.geometry(), rect(5, 6, 7, 8));
    assert!(!native.is_override_redirect());
    assert!(x11.is_override_redirect());
    assert_eq!(
        native.as_focus_target(),
        FocusTarget { window: WindowId::Native(4), connection: None }
    );
    assert_eq!(
        x11.as_focus_target(),
        FocusTarget { window: WindowId::X11(4), connection: Some(XwmId { id: 2 }) }
    );
    let size = Size { w: 1920, h: 1080 };
    assert_eq!(native.configure(size), ConfigureRequest::Toplevel { size });
    assert_eq!(x11.configure(size), ConfigureRequest::X11 { geometry: rect(0, 0, 1920, 1080) });
}

#[test]
fn a_destroyed_window_is_forgotten_wherever_it_is() {
    let mut s = State::new();
    let size = Size { w: 100, h: 50 };
    s.output = Some(Output { mode: Some(OutputMode { size, refresh: 60_000, logical_size: size }) });
    assert!(s.new_toplevel(1));
    assert!(s.new_toplevel(2));
    assert!(s.new_toplevel(3));
    let none = Size { w: 0, h: 0 };
    assert!(matches!(s.commit(2, none, None), CommitOutcome::Configure { .. }));
    assert_eq!(s.commit(2, none, None), CommitOutcome::Mapped { target: OutputKind::Primary });
    assert!(matches!(s.commit(3, none, None), CommitOutcome::Configure { .. }));

    assert_eq!(s.teardown(WindowId::Native(1)), Some(Lifecycle::Pending));
    assert_eq!(s.lifecycle(WindowId::Native(1)), None);
    assert_eq!(s.pending_windows.len(), 1);
    assert_eq!(s.teardown(WindowId::Native(1)), None);

    let three = Window::NativeSurface { surface: 3, geometry: rect(0, 0, 1, 1) };
    assert_eq!(s.window_destroyed(&three), Some(Lifecycle::Configured));
    assert!(s.pending_windows.is_empty());
    assert_eq!(s.space.len(), 1);

    assert_eq!(s.focus, Some(FocusTarget { window: WindowId::Native(2), connection: None }));
    let two = Window::NativeSurface { surface: 2, geometry: rect(0, 0, 1, 1) };
    assert_eq!(s.window_destroyed(&two), Some(Lifecycle::Mapped));
    assert_eq!(s.space.len(), 0);
    assert_eq!(s.focus, None);
    assert_eq!(s.window_destroyed(&two), None);
    assert!(s.new_toplevel(2));
    assert_eq!(s.lifecycle(WindowId::Native(2)), Some(Lifecycle::Pending));
}
