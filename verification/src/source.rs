//! The source element of the primary output, which runs the compositor: its
//! settings and properties, what it does when it starts and stops, and the
//! buffer formats it offers.

use vstd::prelude::*;
use vstd::string::*;
use crate::element::{FlowError, PropertyError, PropertyValue};
use crate::format::{gst_format_names, gst_formats, DrmFormat};
use crate::text::{
    contains_text, has_char, has_substring, is_first, join, joined, same_text, split_once,
    text_of, texts,
};

verus! {

/// The render node that an element without the setting reports.
pub open spec fn default_render_node() -> Seq<char> {
    "/dev/dri/renderD128"@
}

/// The settings of the source element.
#[derive(Debug)]
pub struct Settings {
    /// The render node to draw with.
    pub render_node: Option<String>,
    /// The paths of the input devices to take events from.
    pub input_devices: Vec<String>,
    /// Switches off the workaround for the tiled layouts of some Intel GPUs.
    pub disable_intel_workaround: bool,
    /// Lets a second output show a second window, and makes the compositor
    /// known in the registry.
    pub multi_output: bool,
    /// The name of the sink that an in-process secondary pipeline ends in.
    /// Set together with `multi_output`, it has that pipeline started by the
    /// element itself.
    pub secondary_sink_name: Option<String>,
}

/// The settings as mathematics.
pub struct SettingsView {
    pub render_node: Option<Seq<char>>,
    pub input_devices: Seq<Seq<char>>,
    pub disable_intel_workaround: bool,
    pub multi_output: bool,
    pub secondary_sink_name: Option<Seq<char>>,
}

impl View for Settings {
    type V = SettingsView;

    open spec fn view(&self) -> SettingsView {
        SettingsView {
            render_node: text_of(self.render_node),
            input_devices: texts(self.input_devices@),
            disable_intel_workaround: self.disable_intel_workaround,
            multi_output: self.multi_output,
            secondary_sink_name: text_of(self.secondary_sink_name),
        }
    }
}

/// The value of a property as mathematics.
pub enum ValueView {
    Text(Option<Seq<char>>),
    Flag(bool),
}

/// The view of a property value.
pub open spec fn value_view(value: PropertyValue) -> ValueView {
    match value {
        PropertyValue::Text(t) => ValueView::Text(text_of(t)),
        PropertyValue::Flag(b) => ValueView::Flag(b),
    }
}

/// The settings after a property was written, or why it cannot be written.
/// `mouse` and `keyboard` both add an input device; an unset value adds
/// none.
pub open spec fn with_property(s: SettingsView, name: Seq<char>, value: ValueView) -> Result<
    SettingsView,
    PropertyError,
> {
    if name == "render-node"@ {
        match value {
            ValueView::Text(t) => Ok(SettingsView { render_node: t, ..s }),
            _ => Err(PropertyError::WrongType),
        }
    } else if name == "mouse"@ || name == "keyboard"@ {
        match value {
            ValueView::Text(Some(t)) => Ok(
                SettingsView { input_devices: s.input_devices.push(t), ..s },
            ),
            ValueView::Text(None) => Ok(s),
            _ => Err(PropertyError::WrongType),
        }
    } else if name == "disable-intel-workaround"@ {
        match value {
            ValueView::Flag(b) => Ok(SettingsView { disable_intel_workaround: b, ..s }),
            _ => Err(PropertyError::WrongType),
        }
    } else if name == "multi-output"@ {
        match value {
            ValueView::Flag(b) => Ok(SettingsView { multi_output: b, ..s }),
            _ => Err(PropertyError::WrongType),
        }
    } else if name == "secondary-sink-name"@ {
        match value {
            ValueView::Text(t) => Ok(SettingsView { secondary_sink_name: t, ..s }),
            _ => Err(PropertyError::WrongType),
        }
    } else {
        Err(PropertyError::UnknownProperty)
    }
}

/// What a property reads as. `mouse` and `keyboard` both read as all input
/// devices, separated by commas; an unset text reads as its default.
pub open spec fn property_of(s: SettingsView, name: Seq<char>) -> Result<ValueView, PropertyError> {
    if name == "render-node"@ {
        Ok(
            ValueView::Text(
                Some(
                    match s.render_node {
                        Some(t) => t,
                        None => default_render_node(),
                    },
                ),
            ),
        )
    } else if name == "mouse"@ || name == "keyboard"@ {
        Ok(ValueView::Text(Some(joined(s.input_devices, ","@))))
    } else if name == "disable-intel-workaround"@ {
        Ok(ValueView::Flag(s.disable_intel_workaround))
    } else if name == "multi-output"@ {
        Ok(ValueView::Flag(s.multi_output))
    } else if name == "secondary-sink-name"@ {
        Ok(
            ValueView::Text(
                Some(
                    match s.secondary_sink_name {
                        Some(t) => t,
                        None => Seq::empty(),
                    },
                ),
            ),
        )
    } else {
        Err(PropertyError::UnknownProperty)
    }
}

/// The settings after the environment had its say. The variable for
/// multi-output mode switches the mode on when it reads `1`, and never off;
/// the variable for the sink's name counts where the setting is unset and the
/// variable is not empty.
pub open spec fn with_environment(
    s: SettingsView,
    multi_output: Option<Seq<char>>,
    sink_name: Option<Seq<char>>,
) -> SettingsView {
    SettingsView {
        multi_output: s.multi_output || multi_output == Some("1"@),
        secondary_sink_name: match (s.secondary_sink_name, sink_name) {
            (None, Some(n)) => if n.len() > 0 {
                Some(n)
            } else {
                None
            },
            _ => s.secondary_sink_name,
        },
        ..s
    }
}

/// The description from which the in-process secondary pipeline is
/// launched: a secondary source attached to the compositor `socket`, a small
/// leaky queue, and a sink called `sink`.
pub open spec fn secondary_pipeline_text(socket: Seq<char>, sink: Seq<char>) -> Seq<char> {
    "waylanddisplaysecondary compositor-name="@ + socket
        + " ! queue max-size-buffers=4 leaky=downstream ! interpipesink sync=false async=false name="@
        + sink + " max-buffers=4 drop=true"@
}

/// Builds the description of the in-process secondary pipeline.
pub fn secondary_pipeline_description(socket: &str, sink: &str) -> (text: String)
    ensures
        text@ == secondary_pipeline_text(socket@, sink@),
{
    let mut text = String::from_str("waylanddisplaysecondary compositor-name=");
    text.append(socket);
    text.append(
        " ! queue max-size-buffers=4 leaky=downstream ! interpipesink sync=false async=false name=",
    );
    text.append(sink);
    text.append(" max-buffers=4 drop=true");
    text
}

/// The message with which the element fails when the compositor could not
/// open its render node.
pub open spec fn open_failure_text(render_node: Option<Seq<char>>) -> Seq<char> {
    "Failed to open drm node "@ + match render_node {
        Some(n) => n,
        None => Seq::empty(),
    } + ", if you want to utilize software rendering set `render-node=software`."@
}

/// One variable of the environment that the compositor offers to its
/// clients.
#[derive(Debug, PartialEq, Eq)]
pub struct EnvVar {
    pub key: String,
    pub value: String,
}

/// A variable as mathematics.
pub struct EnvVarView {
    pub key: Seq<char>,
    pub value: Seq<char>,
}

/// The views of a list of variables.
pub open spec fn env_views(vars: Seq<EnvVar>) -> Seq<EnvVarView> {
    Seq::new(vars.len(), |i: int| EnvVarView { key: vars[i].key@, value: vars[i].value@ })
}

/// The place of the first `=` in an entry.
pub open spec fn equals_sign(entry: Seq<char>) -> int {
    choose|i: int| is_first(entry, '=', i)
}

/// An entry split at its first `=`.
pub open spec fn split_entry(entry: Seq<char>) -> EnvVarView {
    EnvVarView {
        key: entry.subrange(0, equals_sign(entry)),
        value: entry.subrange(equals_sign(entry) + 1, entry.len() as int),
    }
}

/// The variables that the entries of `entries` spell, in their order. An
/// entry without `=` spells none.
pub open spec fn parsed_environment(entries: Seq<Seq<char>>) -> Seq<EnvVarView>
    decreases entries.len(),
{
    if entries.len() == 0 {
        Seq::empty()
    } else if has_char(entries.last(), '=') {
        parsed_environment(entries.drop_last()).push(split_entry(entries.last()))
    } else {
        parsed_environment(entries.drop_last())
    }
}

/// The value of the last variable called `key`.
pub open spec fn last_value(vars: Seq<EnvVarView>, key: Seq<char>) -> Option<Seq<char>>
    decreases vars.len(),
{
    if vars.len() == 0 {
        None
    } else if vars.last().key == key {
        Some(vars.last().value)
    } else {
        last_value(vars.drop_last(), key)
    }
}

/// What the element does while it starts, once the compositor runs.
#[derive(Debug, PartialEq, Eq)]
pub struct StartPlan {
    /// The variables to announce on the bus.
    pub environment: Vec<EnvVar>,
    /// The name of the compositor's display socket, where the environment
    /// names one.
    pub socket_name: Option<String>,
    /// Whether to switch the compositor to multi-output mode.
    pub enable_multi_output: bool,
    /// The name to register the compositor under, where it is to be
    /// registered.
    pub register_as: Option<String>,
    /// The description of the secondary pipeline to launch, where one is to
    /// be launched.
    pub secondary_pipeline: Option<String>,
}

/// The plan as mathematics.
pub struct StartPlanView {
    pub environment: Seq<EnvVarView>,
    pub socket_name: Option<Seq<char>>,
    pub enable_multi_output: bool,
    pub register_as: Option<Seq<char>>,
    pub secondary_pipeline: Option<Seq<char>>,
}

impl View for StartPlan {
    type V = StartPlanView;

    open spec fn view(&self) -> StartPlanView {
        StartPlanView {
            environment: env_views(self.environment@),
            socket_name: text_of(self.socket_name),
            enable_multi_output: self.enable_multi_output,
            register_as: text_of(self.register_as),
            secondary_pipeline: text_of(self.secondary_pipeline),
        }
    }
}

/// The plan for settings `s`, read after the environment had its say, and
/// the entries `entries` of the compositor's environment. The compositor is
/// registered only in multi-output mode and only under a socket name; the
/// secondary pipeline is launched only for a registered compositor and only
/// where a sink is named.
pub open spec fn start_plan(s: SettingsView, entries: Seq<Seq<char>>) -> StartPlanView {
    let environment = parsed_environment(entries);
    let socket = last_value(environment, "WAYLAND_DISPLAY"@);
    let register_as = if s.multi_output {
        socket
    } else {
        None
    };
    StartPlanView {
        environment,
        socket_name: socket,
        enable_multi_output: s.multi_output,
        register_as,
        secondary_pipeline: match (register_as, s.secondary_sink_name) {
            (Some(name), Some(sink)) => Some(secondary_pipeline_text(name, sink)),
            _ => None,
        },
    }
}

/// Parses the entries of an environment, each of the form `key=value`.
pub fn parse_environment(entries: &Vec<String>) -> (vars: Vec<EnvVar>)
    ensures
        env_views(vars@) == parsed_environment(texts(entries@)),
{
    let mut vars: Vec<EnvVar> = Vec::new();
    let mut i: usize = 0;
    assert(texts(entries@).take(0) =~= Seq::<Seq<char>>::empty());
    assert(env_views(vars@) =~= Seq::<EnvVarView>::empty());
    while i < entries.len()
        invariant
            i <= entries@.len(),
            env_views(vars@) == parsed_environment(texts(entries@).take(i as int)),
        decreases entries@.len() - i,
    {
        let ghost before = vars@;
        let ghost next = texts(entries@).take(i + 1);
        proof {
            assert(next.drop_last() =~= texts(entries@).take(i as int));
            assert(next.last() == entries@[i as int]@);
        }
        match split_once(entries[i].as_str(), '=') {
            Some((key, value)) => {
                proof {
                    let e = entries@[i as int]@;
                    let a = choose|a: int|
                        {
                            &&& is_first(e, '=', a)
                            &&& key@ == e.subrange(0, a)
                            &&& value@ == e.subrange(a + 1, e.len() as int)
                        };
                    let b = equals_sign(e);
                    assert(is_first(e, '=', a));
                    assert(is_first(e, '=', b));
                    assert(a == b);
                }
                vars.push(EnvVar { key, value });
                assert(env_views(vars@) =~= env_views(before).push(
                    EnvVarView { key: key@, value: value@ },
                ));
            },
            None => {},
        }
        i += 1;
    }
    assert(texts(entries@).take(i as int) =~= texts(entries@));
    vars
}

/// Finds the value of the last variable called `key`.
pub fn find_last<'a>(vars: &'a Vec<EnvVar>, key: &str) -> (value: Option<&'a String>)
    ensures
        text_of_ref(value) == last_value(env_views(vars@), key@),
{
    let mut i: usize = vars.len();
    assert(env_views(vars@).take(i as int) =~= env_views(vars@));
    while i > 0
        invariant
            i <= vars@.len(),
            last_value(env_views(vars@), key@) == last_value(
                env_views(vars@).take(i as int),
                key@,
            ),
        decreases i,
    {
        let ghost cur = env_views(vars@).take(i as int);
        i -= 1;
        proof {
            assert(cur.drop_last() =~= env_views(vars@).take(i as int));
            assert(cur.last().key == vars@[i as int].key@);
        }
        if same_text(vars[i].key.as_str(), key) {
            return Some(&vars[i].value);
        }
    }
    assert(env_views(vars@).take(0) =~= Seq::<EnvVarView>::empty());
    None
}

/// The text behind an optional reference to a string.
pub open spec fn text_of_ref(s: Option<&String>) -> Option<Seq<char>> {
    match s {
        Some(t) => Some(t@),
        None => None,
    }
}

/// The vendor of a GPU.
#[derive(Clone, Copy, Debug, PartialEq, Eq, Structural)]
pub enum PciVendor {
    Intel,
    Nvidia,
    Other,
}

/// The GPU that the compositor renders with.
#[derive(Debug)]
pub struct RenderDevice {
    pub vendor: PciVendor,
    pub name: String,
}

/// The buffer formats that the element offers for GPU buffers.
#[derive(Debug, PartialEq, Eq)]
pub enum DmaCaps {
    /// No format is named: every format is open to negotiation.
    Any,
    /// One offer for each of these formats.
    Formats(Vec<String>),
}

/// Whether the workaround is off, by the setting and the GPU. It is meant
/// for Intel's first discrete generation alone, so on every other Intel GPU
/// it is off whatever the setting says.
pub open spec fn workaround_off(
    setting: bool,
    device: Option<(PciVendor, Seq<char>)>,
) -> bool {
    setting || match device {
        Some((vendor, name)) => vendor == PciVendor::Intel && !has_substring(name, "DG2"@),
        None => false,
    }
}

/// The GPU as mathematics.
pub open spec fn device_view(device: Option<&RenderDevice>) -> Option<(PciVendor, Seq<char>)> {
    match device {
        Some(d) => Some((d.vendor, d.name@)),
        None => None,
    }
}

/// Decides whether the workaround for tiled layouts is off.
pub fn workaround_disabled(setting: bool, device: Option<&RenderDevice>) -> (off: bool)
    ensures
        off == workaround_off(setting, device_view(device)),
{
    if setting {
        return true;
    }
    match device {
        Some(d) => match d.vendor {
            PciVendor::Intel => !contains_text(d.name.as_str(), "DG2"),
            _ => false,
        },
        None => false,
    }
}

/// The formats to offer for GPU buffers, given the formats the compositor
/// can render to, or `None` before the compositor runs.
pub fn dma_caps(
    supported: Option<&Vec<DrmFormat>>,
    setting: bool,
    device: Option<&RenderDevice>,
) -> (caps: DmaCaps)
    ensures
        ({
            let names = match supported {
                Some(formats) => gst_formats(
                    formats@,
                    workaround_off(setting, device_view(device)),
                ),
                None => Seq::empty(),
            };
            match caps {
                DmaCaps::Any => names.len() == 0,
                DmaCaps::Formats(list) => names.len() > 0 && texts(list@) == names,
            }
        }),
{
    match supported {
        Some(formats) => {
            let off = workaround_disabled(setting, device);
            let names = gst_format_names(formats, off);
            if names.len() == 0 {
                DmaCaps::Any
            } else {
                DmaCaps::Formats(names)
            }
        },
        None => DmaCaps::Any,
    }
}

impl Settings {
    /// The settings of a new element.
    pub fn new() -> (settings: Settings)
        ensures
            settings@ == (SettingsView {
                render_node: None,
                input_devices: Seq::empty(),
                disable_intel_workaround: false,
                multi_output: false,
                secondary_sink_name: None,
            }),
    {
        let settings = Settings {
            render_node: None,
            input_devices: Vec::new(),
            disable_intel_workaround: false,
            multi_output: false,
            secondary_sink_name: None,
        };
        assert(texts(settings.input_devices@) =~= Seq::<Seq<char>>::empty());
        settings
    }

    /// Writes a property: see [`with_property`]. On an error the settings
    /// stay as they are.
    pub fn set_property(&mut self, name: &str, value: PropertyValue) -> (done: Result<
        (),
        PropertyError,
    >)
        ensures
            match with_property(old(self)@, name@, value_view(value)) {
                Ok(s) => done.is_ok() && final(self)@ == s,
                Err(e) => done == Err::<(), PropertyError>(e) && final(self)@ == old(self)@,
            },
    {
        if same_text(name, "render-node") {
            match value {
                PropertyValue::Text(t) => {
                    self.render_node = t;
                    Ok(())
                },
                _ => Err(PropertyError::WrongType),
            }
        } else if same_text(name, "mouse") || same_text(name, "keyboard") {
            match value {
                PropertyValue::Text(Some(t)) => {
                    let ghost before = self.input_devices@;
                    self.input_devices.push(t);
                    assert(texts(self.input_devices@) =~= texts(before).push(t@));
                    Ok(())
                },
                PropertyValue::Text(None) => Ok(()),
                _ => Err(PropertyError::WrongType),
            }
        } else if same_text(name, "disable-intel-workaround") {
            match value {
                PropertyValue::Flag(b) => {
                    self.disable_intel_workaround = b;
                    Ok(())
                },
                _ => Err(PropertyError::WrongType),
            }
        } else if same_text(name, "multi-output") {
            match value {
                PropertyValue::Flag(b) => {
                    self.multi_output = b;
                    Ok(())
                },
                _ => Err(PropertyError::WrongType),
            }
        } else if same_text(name, "secondary-sink-name") {
            match value {
                PropertyValue::Text(t) => {
                    self.secondary_sink_name = t;
                    Ok(())
                },
                _ => Err(PropertyError::WrongType),
            }
        } else {
            Err(PropertyError::UnknownProperty)
        }
    }

    /// Reads a property: see [`property_of`].
    pub fn property(&self, name: &str) -> (value: Result<PropertyValue, PropertyError>)
        ensures
            match property_of(self@, name@) {
                Ok(v) => value.is_ok() && value_view(value.unwrap()) == v,
                Err(e) => value == Err::<PropertyValue, PropertyError>(e),
            },
    {
        if same_text(name, "render-node") {
            let text = match &self.render_node {
                Some(t) => t.clone(),
                None => String::from_str("/dev/dri/renderD128"),
            };
            Ok(PropertyValue::Text(Some(text)))
        } else if same_text(name, "mouse") || same_text(name, "keyboard") {
            Ok(PropertyValue::Text(Some(join(&self.input_devices, ","))))
        } else if same_text(name, "disable-intel-workaround") {
            Ok(PropertyValue::Flag(self.disable_intel_workaround))
        } else if same_text(name, "multi-output") {
            Ok(PropertyValue::Flag(self.multi_output))
        } else if same_text(name, "secondary-sink-name") {
            let text = match &self.secondary_sink_name {
                Some(t) => t.clone(),
                None => String::new(),
            };
            Ok(PropertyValue::Text(Some(text)))
        } else {
            Err(PropertyError::UnknownProperty)
        }
    }

    /// Lets the environment have its say: see [`with_environment`]. The
    /// arguments are the values of the two variables, `None` for a variable
    /// that is not set.
    pub fn apply_environment(&mut self, multi_output: Option<&str>, sink_name: Option<&str>)
        ensures
            final(self)@ == with_environment(
                old(self)@,
                match multi_output {
                    Some(t) => Some(t@),
                    None => None,
                },
                match sink_name {
                    Some(t) => Some(t@),
                    None => None,
                },
            ),
    {
        if !self.multi_output {
            match multi_output {
                Some(value) => {
                    if same_text(value, "1") {
                        self.multi_output = true;
                    }
                },
                None => {},
            }
        }
        if self.secondary_sink_name.is_none() {
            match sink_name {
                Some(name) => {
                    if name.unicode_len() > 0 {
                        self.secondary_sink_name = Some(String::from_str(name));
                    }
                },
                None => {},
            }
        }
    }

    /// Plans the start: see [`start_plan`]. `entries` is the environment
    /// that the compositor offers to its clients.
    pub fn plan_start(&self, entries: &Vec<String>) -> (plan: StartPlan)
        ensures
            plan@ == start_plan(self@, texts(entries@)),
    {
        let environment = parse_environment(entries);
        let socket_name = match find_last(&environment, "WAYLAND_DISPLAY") {
            Some(value) => Some(value.clone()),
            None => None,
        };
        let register_as = if self.multi_output {
            match &socket_name {
                Some(name) => Some(name.clone()),
                None => None,
            }
        } else {
            None
        };
        let secondary_pipeline = match (&register_as, &self.secondary_sink_name) {
            (Some(name), Some(sink)) => Some(
                secondary_pipeline_description(name.as_str(), sink.as_str()),
            ),
            _ => None,
        };
        StartPlan {
            environment,
            socket_name,
            enable_multi_output: self.multi_output,
            register_as,
            secondary_pipeline,
        }
    }

    /// The message with which the element fails when the compositor could
    /// not open its render node.
    pub fn open_failure_message(&self) -> (text: String)
        ensures
            text@ == open_failure_text(self@.render_node),
    {
        let mut text = String::from_str("Failed to open drm node ");
        match &self.render_node {
            Some(n) => text.append(n.as_str()),
            None => {
                assert(text@ + Seq::<char>::empty() =~= text@);
            },
        }
        text.append(", if you want to utilize software rendering set `render-node=software`.");
        text
    }
}

/// What a running element holds. `D` is the compositor, `L` a launched
/// pipeline.
#[derive(Debug, PartialEq, Eq)]
pub struct State<D, L> {
    pub display: D,
    /// The name of the compositor's display socket, kept to take the
    /// compositor out of the registry again.
    pub socket_name: Option<String>,
    /// The secondary pipeline that the element launched.
    pub secondary_pipeline: Option<L>,
}

/// How a start goes on.
#[derive(Clone, Copy, Debug, PartialEq, Eq, Structural)]
pub enum StartStep {
    /// The element runs already: the start is done, and nothing changed.
    AlreadyRunning,
    /// The element does not run: open the compositor, then plan the rest.
    OpenDisplay,
}

/// What is left to do when the element stops.
#[derive(Debug, PartialEq, Eq)]
pub struct StopPlan<D, L> {
    /// The secondary pipeline to shut down.
    pub secondary_pipeline: Option<L>,
    /// The name to take out of the registry.
    pub unregister: Option<String>,
    /// The compositor to shut down.
    pub display: D,
}

/// The source element of the primary output.
#[derive(Debug)]
pub struct WaylandDisplaySrc<D, L> {
    pub state: Option<State<D, L>>,
    pub settings: Settings,
}

impl<D, L> WaylandDisplaySrc<D, L> {
    /// An element with default settings that does not run.
    pub fn new() -> (element: WaylandDisplaySrc<D, L>)
        ensures
            element.state.is_none(),
            element.settings@ == (SettingsView {
                render_node: None,
                input_devices: Seq::empty(),
                disable_intel_workaround: false,
                multi_output: false,
                secondary_sink_name: None,
            }),
    {
        WaylandDisplaySrc { state: None, settings: Settings::new() }
    }

    /// Tells whether the element runs.
    pub fn is_started(&self) -> (started: bool)
        ensures
            started == self.state.is_some(),
    {
        self.state.is_some()
    }

    /// Begins a start. An element that runs is left exactly as it is and
    /// has nothing more to do; any other goes on to open its compositor.
    pub fn start(&mut self) -> (step: StartStep)
        ensures
            *final(self) == *old(self),
            step == if old(self).state.is_some() {
                StartStep::AlreadyRunning
            } else {
                StartStep::OpenDisplay
            },
    {
        if self.state.is_some() {
            StartStep::AlreadyRunning
        } else {
            StartStep::OpenDisplay
        }
    }

    /// Ends a start: the element runs from now on, with what it holds while
    /// running. An element that runs already keeps what it has, and the
    /// state that was offered is handed back.
    pub fn started(&mut self, state: State<D, L>) -> (refused: Option<State<D, L>>)
        ensures
            final(self).settings == old(self).settings,
            old(self).state.is_none() ==> final(self).state == Some(state) && refused.is_none(),
            old(self).state.is_some() ==> final(self).state == old(self).state && refused == Some(
                state,
            ),
    {
        if self.state.is_some() {
            Some(state)
        } else {
            self.state = Some(state);
            None
        }
    }

    /// Stops the element. Returns what is left to do, or `None` for an
    /// element that did not run. The compositor is taken out of the registry
    /// only in multi-output mode and only where it had a socket name.
    pub fn stop(&mut self) -> (plan: Option<StopPlan<D, L>>)
        ensures
            final(self).state.is_none(),
            final(self).settings == old(self).settings,
            match old(self).state {
                None => plan.is_none(),
                Some(s) => plan matches Some(p) && p.display == s.display && p.secondary_pipeline
                    == s.secondary_pipeline && p.unregister == if old(self).settings.multi_output {
                    s.socket_name
                } else {
                    None
                },
            },
    {
        match self.state.take() {
            Some(s) => {
                let unregister = if self.settings.multi_output {
                    s.socket_name
                } else {
                    None
                };
                Some(
                    StopPlan {
                        secondary_pipeline: s.secondary_pipeline,
                        unregister,
                        display: s.display,
                    },
                )
            },
            None => None,
        }
    }

    /// The answer to a request for a frame from an element that does not
    /// run: its stream is over.
    pub fn create_without_state(&self) -> (flow: Option<FlowError>)
        ensures
            flow == if self.state.is_none() {
                Some(FlowError::Eos)
            } else {
                None
            },
    {
        if self.state.is_none() {
            Some(FlowError::Eos)
        } else {
            None
        }
    }

    /// Tells whether the stream can be sought in. It cannot.
    pub fn is_seekable(&self) -> (seekable: bool)
        ensures
            !seekable,
    {
        false
    }
}

} // verus!
