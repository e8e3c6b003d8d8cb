use drm_fourcc::{DrmFourcc, DrmModifier};
use wolf_dual_screen::element::{FlowError, PropertyError, PropertyValue};
use wolf_dual_screen::format::{DrmFormat, MODIFIER_I915_4_TILED};
use wolf_dual_screen::source::{
    dma_caps, find_last, parse_environment, secondary_pipeline_description, workaround_disabled,
    DmaCaps, EnvVar, PciVendor, RenderDevice, Settings, StartPlan, StartStep, State, StopPlan,
    WaylandDisplaySrc,
};

fn text(s: &str) -> PropertyValue {
    PropertyValue::Text(Some(s.to_string()))
}

fn var(key: &str, value: &str) -> EnvVar {
    EnvVar { key: key.to_string(), value: value.to_string() }
}

fn strings(items: &[&str]) -> Vec<String> {
    items.iter().map(|s| s.to_string()).collect()
}

#[test]
fn properties_read_back() {
    let mut s = Settings::new();
    assert_eq!(s.property("render-node"), Ok(text("/dev/dri/renderD128")));
    assert_eq!(s.property("mouse"), Ok(text("")));
    assert_eq!(s.property("keyboard"), Ok(text("")));
    assert_eq!(s.property("disable-intel-workaround"), Ok(PropertyValue::Flag(false)));
    assert_eq!(s.property("multi-output"), Ok(PropertyValue::Flag(false)));
    assert_eq!(s.property("secondary-sink-name"), Ok(text("")));
    assert_eq!(s.property("cuda-device-id"), Err(PropertyError::UnknownProperty));

    assert_eq!(s.set_property("render-node", text("software")), Ok(()));
    assert_eq!(s.set_property("mouse", text("/dev/input/event0")), Ok(()));
    assert_eq!(s.set_property("keyboard", text("/dev/input/event1")), Ok(()));
    assert_eq!(s.set_property("mouse", PropertyValue::Text(None)), Ok(()));
    assert_eq!(s.set_property("disable-intel-workaround", PropertyValue::Flag(true)), Ok(()));
    assert_eq!(s.set_property("multi-output", PropertyValue::Flag(true)), Ok(()));
    assert_eq!(s.set_property("secondary-sink-name", text("abc_secondary_video")), Ok(()));

    assert_eq!(s.property("render-node"), Ok(text("software")));
    assert_eq!(s.property("mouse"), Ok(text("/dev/input/event0,/dev/input/event1")));
    assert_eq!(s.property("keyboard"), Ok(text("/dev/input/event0,/dev/input/event1")));
    assert_eq!(s.property("disable-intel-workaround"), Ok(PropertyValue::Flag(true)));
    assert_eq!(s.property("multi-output"), Ok(PropertyValue::Flag(true)));
    assert_eq!(s.property("secondary-sink-name"), Ok(text("abc_secondary_video")));
    assert_eq!(s.input_devices, strings(&["/dev/input/event0", "/dev/input/event1"]));

    assert_eq!(s.set_property("render-node", PropertyValue::Text(None)), Ok(()));
    assert_eq!(s.render_node, None);
}

#[test]
fn property_errors_leave_the_settings() {
    let mut s = Settings::new();
    assert_eq!(s.set_property("nope", text("x")), Err(PropertyError::UnknownProperty));
    assert_eq!(
        s.set_property("render-node", PropertyValue::Flag(true)),
        Err(PropertyError::WrongType)
    );
    assert_eq!(s.set_property("mouse", PropertyValue::Flag(true)), Err(PropertyError::WrongType));
    assert_eq!(s.set_property("multi-output", text("1")), Err(PropertyError::WrongType));
    assert_eq!(
        s.set_property("disable-intel-workaround", text("1")),
        Err(PropertyError::WrongType)
    );
    assert_eq!(
        s.set_property("secondary-sink-name", PropertyValue::Flag(false)),
        Err(PropertyError::WrongType)
    );
    assert_eq!(s.render_node, None);
    assert!(s.input_devices.is_empty());
    assert!(!s.multi_output);
    assert!(!s.disable_intel_workaround);
    assert_eq!(s.secondary_sink_name, None);
}

#[test]
fn environment_switches_on_and_never_off() {
    let mut s = Settings::new();
    s.apply_environment(None, None);
    assert!(!s.multi_output);
    assert_eq!(s.secondary_sink_name, None);
    s.apply_environment(Some("0"), Some(""));
    assert!(!s.multi_output);
    assert_eq!(s.secondary_sink_name, None);
    s.apply_environment(Some("true"), None);
    assert!(!s.multi_output);
    s.apply_environment(Some("1"), Some("sink_a"));
    assert!(s.multi_output);
    assert_eq!(s.secondary_sink_name, Some("sink_a".to_string()));
    s.apply_environment(Some("0"), Some("sink_b"));
    assert!(s.multi_output);
    assert_eq!(s.secondary_sink_name, Some("sink_a".to_string()));
}

#[test]
fn environment_entries_are_split_at_the_first_equals_sign() {
    let vars = parse_environment(&strings(&[
        "WAYLAND_DISPLAY=wayland-1",
        "novalue",
        "A=b=c",
        "=x",
        "K=",
        "WAYLAND_DISPLAY=wayland-2",
    ]));
    assert_eq!(
        vars,
        vec![
            var("WAYLAND_DISPLAY", "wayland-1"),
            var("A", "b=c"),
            var("", "x"),
            var("K", ""),
            var("WAYLAND_DISPLAY", "wayland-2"),
        ]
    );
    assert_eq!(find_last(&vars, "WAYLAND_DISPLAY"), Some(&"wayland-2".to_string()));
    assert_eq!(find_last(&vars, "A"), Some(&"b=c".to_string()));
    assert_eq!(find_last(&vars, "B"), None);
}

#[test]
fn pipeline_description() {
    assert_eq!(
        secondary_pipeline_description("wayland-1", "abc_secondary_video"),
        "waylanddisplaysecondary compositor-name=wayland-1 ! queue max-size-buffers=4 leaky=downstream ! interpipesink sync=false async=false name=abc_secondary_video max-buffers=4 drop=true"
    );
}

#[test]
fn start_plan_registers_only_in_multi_output_mode() {
    let entries = strings(&["XDG_RUNTIME_DIR=/tmp", "WAYLAND_DISPLAY=wayland-1"]);
    let environment = vec![var("XDG_RUNTIME_DIR", "/tmp"), var("WAYLAND_DISPLAY", "wayland-1")];
    let mut s = Settings::new();
    s.secondary_sink_name = Some("sink".to_string());
    assert_eq!(
        s.plan_start(&entries),
        StartPlan {
            environment: parse_environment(&entries),
            socket_name: Some("wayland-1".to_string()),
            enable_multi_output: false,
            register_as: None,
            secondary_pipeline: None,
        }
    );
    assert_eq!(parse_environment(&entries), environment);
    s.multi_output = true;
    assert_eq!(
        s.plan_start(&entries),
        StartPlan {
            environment: parse_environment(&entries),
            socket_name: Some("wayland-1".to_string()),
            enable_multi_output: true,
            register_as: Some("wayland-1".to_string()),
            secondary_pipeline: Some(secondary_pipeline_description("wayland-1", "sink")),
        }
    );
    s.secondary_sink_name = None;
    let plan = s.plan_start(&entries);
    assert_eq!(plan.register_as, Some("wayland-1".to_string()));
    assert_eq!(plan.secondary_pipeline, None);
    s.secondary_sink_name = Some("sink".to_string());
    let plan = s.plan_start(&strings(&["XDG_RUNTIME_DIR=/tmp"]));
    assert!(plan.enable_multi_output);
    assert_eq!(plan.socket_name, None);
    assert_eq!(plan.register_as, None);
    assert_eq!(plan.secondary_pipeline, None);
}

#[test]
fn open_failure_message() {
    let mut s = Settings::new();
    assert_eq!(
        s.open_failure_message(),
        "Failed to open drm node , if you want to utilize software rendering set `render-node=software`."
    );
    s.render_node = Some("/dev/dri/renderD129".to_string());
    assert_eq!(
        s.open_failure_message(),
        "Failed to open drm node /dev/dri/renderD129, if you want to utilize software rendering set `render-node=software`."
    );
}

#[test]
fn element_starts_once_and_stops() {
    let mut e: WaylandDisplaySrc<&'static str, u8> = WaylandDisplaySrc::new();
    assert!(!e.is_started());
    assert_eq!(e.create_without_state(), Some(FlowError::Eos));
    assert_eq!(e.stop(), None);
    assert_eq!(e.start(), StartStep::OpenDisplay);
    assert!(!e.is_started());
    let running = e.started(State {
        display: "display",
        socket_name: Some("wayland-1".to_string()),
        secondary_pipeline: Some(4),
    });
    assert_eq!(running, None);
    assert!(e.is_started());
    assert_eq!(e.create_without_state(), None);

    e.settings.multi_output = true;
    assert_eq!(e.start(), StartStep::AlreadyRunning);
    assert_eq!(e.start(), StartStep::AlreadyRunning);
    let second = State { display: "other", socket_name: None, secondary_pipeline: None };
    assert_eq!(
        e.started(second),
        Some(State { display: "other", socket_name: None, secondary_pipeline: None })
    );
    assert_eq!(
        e.state,
        Some(State {
            display: "display",
            socket_name: Some("wayland-1".to_string()),
            secondary_pipeline: Some(4),
        })
    );
    assert!(e.settings.multi_output);
    e.settings.multi_output = false;
    assert_eq!(
        e.stop(),
        Some(StopPlan { secondary_pipeline: Some(4), unregister: None, display: "display" })
    );
    assert!(!e.is_started());
    e.settings.multi_output = true;
    let _ = e.started(State {
        display: "display",
        socket_name: Some("wayland-1".to_string()),
        secondary_pipeline: None,
    });
    assert_eq!(
        e.stop(),
        Some(StopPlan {
            secondary_pipeline: None,
            unregister: Some("wayland-1".to_string()),
            display: "display",
        })
    );
    let _ = e.started(State { display: "display", socket_name: None, secondary_pipeline: None });
    assert_eq!(
        e.stop(),
        Some(StopPlan { secondary_pipeline: None, unregister: None, display: "display" })
    );
    assert!(!e.is_seekable());
}

#[test]
fn workaround_is_for_dg2_alone() {
    let dg2 = RenderDevice { vendor: PciVendor::Intel, name: "Intel DG2 [Arc A770]".to_string() };
    let bmg = RenderDevice { vendor: PciVendor::Intel, name: "Intel Battlemage".to_string() };
    let nv = RenderDevice { vendor: PciVendor::Nvidia, name: "GeForce DG2".to_string() };
    let amd = RenderDevice { vendor: PciVendor::Other, name: "Radeon".to_string() };
    assert!(!workaround_disabled(false, None));
    assert!(workaround_disabled(true, None));
    assert!(!workaround_disabled(false, Some(&dg2)));
    assert!(workaround_disabled(true, Some(&dg2)));
    assert!(workaround_disabled(false, Some(&bmg)));
    assert!(!workaround_disabled(false, Some(&nv)));
    assert!(!workaround_disabled(false, Some(&amd)));
    assert!(workaround_disabled(true, Some(&amd)));
}

#[test]
fn dma_caps_name_each_format_or_any() {
    let formats = vec![
        DrmFormat { code: DrmFourcc::Xrgb8888 as u32, modifier: MODIFIER_I915_4_TILED },
        DrmFormat { code: DrmFourcc::Xrgb8888 as u32, modifier: u64::from(DrmModifier::Invalid) },
        DrmFormat { code: DrmFourcc::Argb8888 as u32, modifier: 0 },
    ];
    let dg2 = RenderDevice { vendor: PciVendor::Intel, name: "DG2".to_string() };
    let other = RenderDevice { vendor: PciVendor::Intel, name: "Meteor Lake".to_string() };
    assert_eq!(dma_caps(None, false, None), DmaCaps::Any);
    assert_eq!(dma_caps(Some(&Vec::new()), false, None), DmaCaps::Any);
    assert_eq!(
        dma_caps(Some(&formats), false, Some(&dg2)),
        DmaCaps::Formats(strings(&["XR24:0x0100000000000002", "AR24"]))
    );
    assert_eq!(
        dma_caps(Some(&formats), false, Some(&other)),
        DmaCaps::Formats(strings(&["XR24:0x0100000000000009", "AR24"]))
    );
    assert_eq!(
        dma_caps(Some(&formats[1..2].to_vec()), false, None),
        DmaCaps::Any
    );
}
