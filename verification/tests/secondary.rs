use wolf_dual_screen::command::NotReady;
use wolf_dual_screen::element::{
    live_change_state, FlowError, PropertyError, PropertyValue, StateChangeError,
    StateChangeSuccess,
};
use wolf_dual_screen::registry::Registry;
use wolf_dual_screen::secondary::{
    fetch_step, AttachError, AttachStep, FetchEvent, FetchStep, WaylandDisplaySecondary,
    ATTACH_DEADLINE_MS, ATTACH_POLL_MS, FRAME_RETRY_MS,
};

fn text(s: &str) -> PropertyValue {
    PropertyValue::Text(Some(s.to_string()))
}

#[test]
fn constants() {
    assert_eq!(ATTACH_DEADLINE_MS, 20_000);
    assert_eq!(ATTACH_POLL_MS, 100);
    assert_eq!(FRAME_RETRY_MS, 5);
}

#[test]
fn compositor_name_property() {
    let mut e: WaylandDisplaySecondary<u32> = WaylandDisplaySecondary::new();
    assert_eq!(e.property("compositor-name"), Ok(text("")));
    assert_eq!(e.set_property("compositor-name", text("wayland-1")), Ok(()));
    assert_eq!(e.settings.compositor_name, Some("wayland-1".to_string()));
    assert_eq!(e.property("compositor-name"), Ok(text("wayland-1")));
    assert_eq!(e.set_property("compositor-name", PropertyValue::Text(None)), Ok(()));
    assert_eq!(e.settings.compositor_name, None);
    assert_eq!(
        e.set_property("compositor-name", PropertyValue::Flag(true)),
        Err(PropertyError::WrongType)
    );
    assert_eq!(e.set_property("render-node", text("x")), Err(PropertyError::UnknownProperty));
    assert_eq!(e.property("nope"), Err(PropertyError::UnknownProperty));
    assert!(!e.is_seekable());
}

#[test]
fn discover_by_name_or_latest() {
    let mut r: Registry<u32> = Registry::new();
    let mut e: WaylandDisplaySecondary<u32> = WaylandDisplaySecondary::new();
    assert_eq!(e.discover(&r), None);
    r.register("wayland-1", 1);
    r.register("wayland-2", 2);
    assert_eq!(e.discover(&r), Some(&2));
    e.settings.compositor_name = Some("wayland-1".to_string());
    assert_eq!(e.discover(&r), Some(&1));
    e.settings.compositor_name = Some("wayland-9".to_string());
    assert_eq!(e.discover(&r), None);
}

#[test]
fn attach_connects_retries_and_gives_up() {
    let mut e: WaylandDisplaySecondary<u32> = WaylandDisplaySecondary::new();
    assert_eq!(e.attach_step(None, 0), AttachStep::Retry { sleep_ms: 100 });
    assert_eq!(e.attach_step(None, 19_999), AttachStep::Retry { sleep_ms: 100 });
    assert_eq!(e.compositor_tx, None);
    assert_eq!(e.attach_step(None, 20_000), AttachStep::Failed(AttachError::NoActiveCompositor));
    assert_eq!(e.attach_step(None, u64::MAX), AttachStep::Failed(AttachError::NoActiveCompositor));
    e.settings.compositor_name = Some("wayland-7".to_string());
    assert_eq!(
        e.attach_step(None, 20_001),
        AttachStep::Failed(AttachError::CompositorNotFound("wayland-7".to_string()))
    );
    assert_eq!(e.attach_step(Some(5), 30_000), AttachStep::Connected);
    assert_eq!(e.compositor_tx, Some(5));
    assert_eq!(e.sender(), Ok(&5));
    assert_eq!(e.stop(), Some(5));
    assert_eq!(e.compositor_tx, None);
    assert_eq!(e.sender(), Err(FlowError::Eos));
    assert_eq!(e.stop(), None);
}

#[test]
fn attach_error_messages() {
    assert_eq!(
        AttachError::CompositorNotFound("wayland-1".to_string()).message(),
        "Could not find compositor 'wayland-1' in registry. Start the primary dual-screen app first."
    );
    assert_eq!(
        AttachError::NoActiveCompositor.message(),
        "No active compositor found. Start the primary dual-screen app first."
    );
}

#[test]
fn fetch_retries_on_not_ready_and_stops_on_closed_channels() {
    assert_eq!(fetch_step(FetchEvent::Reply(Ok(7u8))), FetchStep::Deliver(7));
    assert_eq!(
        fetch_step(FetchEvent::<u8>::Reply(Err(NotReady))),
        FetchStep::Retry { sleep_ms: 5 }
    );
    assert_eq!(fetch_step(FetchEvent::<u8>::SendFailed), FetchStep::Stop(FlowError::Eos));
    assert_eq!(fetch_step(FetchEvent::<u8>::ReplyLost), FetchStep::Stop(FlowError::Eos));
    let mut asked = 0;
    let mut replies = vec![Ok(3u8), Err(NotReady), Err(NotReady), Err(NotReady)];
    let delivered = loop {
        asked += 1;
        match fetch_step(FetchEvent::Reply(replies.pop().unwrap())) {
            FetchStep::Deliver(b) => break b,
            FetchStep::Retry { sleep_ms } => assert_eq!(sleep_ms, 5),
            FetchStep::Stop(_) => panic!("stream ended"),
        }
    };
    assert_eq!(delivered, 3);
    assert_eq!(asked, 4);
}

#[test]
fn live_source_does_not_preroll() {
    assert_eq!(
        live_change_state(Ok(StateChangeSuccess::Success), true),
        Ok(StateChangeSuccess::NoPreroll)
    );
    assert_eq!(
        live_change_state(Ok(StateChangeSuccess::Success), false),
        Ok(StateChangeSuccess::Success)
    );
    assert_eq!(
        live_change_state(Ok(StateChangeSuccess::Async), true),
        Ok(StateChangeSuccess::Async)
    );
    assert_eq!(
        live_change_state(Ok(StateChangeSuccess::NoPreroll), false),
        Ok(StateChangeSuccess::NoPreroll)
    );
    assert_eq!(live_change_state(Err(StateChangeError), true), Err(StateChangeError));
}
