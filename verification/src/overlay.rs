//! Decisions of the window overlay tool: how a window is named on the command
//! line and which of several matching windows is taken.

use vstd::prelude::*;
use vstd::string::*;
use crate::text::{
    contains_text, debug_path, has_char, has_substring, is_last, lowercase, lowercased_text,
    parse_radix, parsed_radix, path_debug_text, rfind_char, trim, trimmed_text,
};

verus! {

/// A window to attach to and the shader preset to run on it.
#[derive(Debug)]
pub struct WindowSpec {
    /// A window id or a part of a window title.
    pub target: String,
    /// Path of the shader preset.
    pub shader_path: String,
}

/// Why a window spec was turned down.
#[derive(Clone, Copy, Debug, PartialEq, Eq, Structural)]
pub enum WindowSpecError {
    /// The text holds no `:` between target and preset.
    MissingSeparator,
    /// Nothing stands before the last `:`.
    EmptyTarget,
    /// The preset named after the last `:` does not exist.
    ShaderNotFound,
}

/// What stands behind the last `:` of a spec, which is the path of its
/// preset. A spec without `:` names no preset.
pub open spec fn preset_part(spec: Seq<char>) -> Seq<char> {
    if has_char(spec, ':') {
        spec.subrange((choose|i: int| is_last(spec, ':', i)) + 1, spec.len() as int)
    } else {
        Seq::empty()
    }
}

impl WindowSpecError {
    /// The text of the message: see [`WindowSpecError::message`].
    pub open spec fn message_text(self, spec: Seq<char>) -> Seq<char> {
        match self {
            WindowSpecError::MissingSeparator => "Invalid window spec '"@ + spec
                + "'. Expected <window>:<shader.slangp>"@,
            WindowSpecError::EmptyTarget => "Empty window target in spec: "@ + spec,
            WindowSpecError::ShaderNotFound => "Shader preset not found: "@ + path_debug_text(
                preset_part(spec),
            ),
        }
    }

    /// The message with which the spec `spec` is turned down for this
    /// reason.
    pub fn message(&self, spec: &str) -> (text: String)
        ensures
            text@ == self.message_text(spec@),
    {
        match self {
            WindowSpecError::MissingSeparator => {
                let mut text = String::from_str("Invalid window spec '");
                text.append(spec);
                text.append("'. Expected <window>:<shader.slangp>");
                text
            },
            WindowSpecError::EmptyTarget => {
                let mut text = String::from_str("Empty window target in spec: ");
                text.append(spec);
                text
            },
            WindowSpecError::ShaderNotFound => {
                let mut text = String::from_str("Shader preset not found: ");
                let shown = match rfind_char(spec, ':') {
                    Some(pos) => {
                        proof {
                            let c = choose|i: int| is_last(spec@, ':', i);
                            assert(is_last(spec@, ':', pos as int));
                            assert(is_last(spec@, ':', c));
                            assert(c == pos);
                        }
                        let n = spec.unicode_len();
                        debug_path(spec.substring_char(pos + 1, n))
                    },
                    None => {
                        proof {
                            reveal_strlit("");
                            assert(""@ =~= Seq::<char>::empty());
                        }
                        debug_path("")
                    },
                };
                text.append(shown.as_str());
                text
            },
        }
    }
}

/// Splits `<target>:<preset>` at its last `:`.
///
/// The split is made from the right, so a target may itself hold colons.
/// Whether the preset exists is for the caller to find out; see
/// [`require_shader`].
pub fn parse_window_spec(spec: &str) -> (parsed: Result<WindowSpec, WindowSpecError>)
    ensures
        match parsed {
            Ok(ws) => exists|i: int|
                {
                    &&& is_last(spec@, ':', i)
                    &&& i > 0
                    &&& ws.target@ == spec@.subrange(0, i)
                    &&& ws.shader_path@ == spec@.subrange(i + 1, spec@.len() as int)
                },
            Err(WindowSpecError::MissingSeparator) => !has_char(spec@, ':'),
            Err(WindowSpecError::EmptyTarget) => is_last(spec@, ':', 0),
            Err(WindowSpecError::ShaderNotFound) => false,
        },
{
    match rfind_char(spec, ':') {
        None => Err(WindowSpecError::MissingSeparator),
        Some(pos) => {
            if pos == 0 {
                Err(WindowSpecError::EmptyTarget)
            } else {
                let n = spec.unicode_len();
                let target = String::from_str(spec.substring_char(0, pos));
                let shader_path = String::from_str(spec.substring_char(pos + 1, n));
                Ok(WindowSpec { target, shader_path })
            }
        },
    }
}

/// Accepts a parsed spec only if its preset was found on disk.
pub fn require_shader(spec: WindowSpec, shader_exists: bool) -> (checked: Result<
    WindowSpec,
    WindowSpecError,
>)
    ensures
        shader_exists ==> checked == Ok::<WindowSpec, WindowSpecError>(spec),
        !shader_exists ==> checked == Err::<WindowSpec, WindowSpecError>(
            WindowSpecError::ShaderNotFound,
        ),
{
    if shader_exists {
        Ok(spec)
    } else {
        Err(WindowSpecError::ShaderNotFound)
    }
}

/// What is known of an X11 window that was found.
#[derive(Clone, Copy, Debug, PartialEq, Eq, Structural)]
pub struct WindowInfo {
    pub id: u64,
    pub x: i32,
    pub y: i32,
    pub width: u32,
    pub height: u32,
}

impl WindowInfo {
    /// The number of pixels the window covers.
    pub open spec fn area(self) -> int {
        self.width * self.height
    }
}

/// True when `text` begins with `0x` or `0X`.
pub open spec fn has_hex_prefix(text: Seq<char>) -> bool {
    text.len() >= 2 && text[0] == '0' && (text[1] == 'x' || text[1] == 'X')
}

/// The window id that a trimmed text spells: hexadecimal behind `0x` or
/// `0X`, decimal else.
pub open spec fn window_id_of(trimmed: Seq<char>) -> Option<u64> {
    if has_hex_prefix(trimmed) {
        parsed_radix(trimmed.subrange(2, trimmed.len() as int), 16)
    } else {
        parsed_radix(trimmed, 10)
    }
}

/// Reads a text without white space around it as a window id.
pub fn parse_trimmed_window_id(trimmed: &str) -> (id: Option<u64>)
    ensures
        id == window_id_of(trimmed@),
{
    let n = trimmed.unicode_len();
    let hex = n >= 2 && trimmed.get_char(0) == '0' && (trimmed.get_char(1) == 'x'
        || trimmed.get_char(1) == 'X');
    if hex {
        parse_radix(trimmed.substring_char(2, n), 16)
    } else {
        parse_radix(trimmed, 10)
    }
}

/// Reads a target as a window id, if it is one. A target that is no number
/// is a part of a window title.
pub fn parse_window_id(target: &str) -> (id: Option<u64>)
    ensures
        id == window_id_of(trimmed_text(target@)),
{
    let trimmed = trim(target);
    parse_trimmed_window_id(trimmed.as_str())
}

/// Tells whether a window title that was brought to lower case holds the
/// lower-case pattern.
pub fn lowered_title_matches(title_lower: &str, pattern_lower: &str) -> (matches: bool)
    ensures
        matches == has_substring(title_lower@, pattern_lower@),
{
    contains_text(title_lower, pattern_lower)
}

/// Tells whether a window title holds the lower-case pattern, whatever the
/// case of the title's letters.
pub fn title_matches(title: &str, pattern_lower: &str) -> (matches: bool)
    ensures
        matches == has_substring(lowercased_text(title@), pattern_lower@),
{
    let lower = lowercase(title);
    lowered_title_matches(lower.as_str(), pattern_lower)
}

/// Tells whether a window found by walking the window tree is worth
/// capturing: helper windows of one pixel are not.
pub fn worth_capturing(width: i32, height: i32) -> (worth: bool)
    ensures
        worth == (width > 1 && height > 1),
{
    width > 1 && height > 1
}

/// True when `i` is the place of the first window of the largest area.
pub open spec fn is_largest(windows: Seq<WindowInfo>, i: int) -> bool {
    &&& 0 <= i < windows.len()
    &&& forall|j: int| 0 <= j < windows.len() ==> (#[trigger] windows[j]).area() <= windows[i].area()
    &&& forall|j: int| 0 <= j < i ==> (#[trigger] windows[j]).area() < windows[i].area()
}

/// Picks among the windows that match a target the one to capture: the
/// largest, and of several largest the one found first.
pub fn pick_largest(windows: &Vec<WindowInfo>) -> (picked: Option<usize>)
    ensures
        match picked {
            Some(i) => is_largest(windows@, i as int),
            None => windows@.len() == 0,
        },
{
    if windows.len() == 0 {
        return None;
    }
    let mut best: usize = 0;
    let mut best_area: u64 = area_of(&windows[0]);
    let mut i: usize = 1;
    while i < windows.len()
        invariant
            1 <= i <= windows@.len(),
            best < i,
            best_area == windows@[best as int].area(),
            forall|j: int| 0 <= j < i ==> (#[trigger] windows@[j]).area() <= best_area,
            forall|j: int| 0 <= j < best ==> (#[trigger] windows@[j]).area() < best_area,
        decreases windows@.len() - i,
    {
        let a = area_of(&windows[i]);
        if a > best_area {
            best = i;
            best_area = a;
        }
        i += 1;
    }
    Some(best)
}

/// The number of pixels a window covers.
pub fn area_of(window: &WindowInfo) -> (area: u64)
    ensures
        area == window.area(),
{
    assert(window.width * window.height <= 0xffff_ffff * 0xffff_ffff) by (nonlinear_arith)
        requires
            window.width <= 0xffff_ffff,
            window.height <= 0xffff_ffff,
    ;
    (window.width as u64) * (window.height as u64)
}

/// What is to be done to bring a captured texture up to date.
#[derive(Clone, Copy, Debug, PartialEq, Eq, Structural)]
pub enum CaptureUpdate {
    /// The texture shows the window as it is.
    Clean,
    /// The texture is bound to the window's contents for good: wait for the
    /// X server to finish drawing.
    Sync,
    /// The texture holds a copy: release it and bind it anew.
    Rebind,
}

/// What a capture knows of its window between two frames: the size it was
/// set up for, whether the window was drawn to since the last frame, and
/// whether the driver keeps a bound texture up to date by itself.
#[derive(Clone, Copy, Debug, PartialEq, Eq, Structural)]
pub struct CaptureState {
    pub width: u32,
    pub height: u32,
    pub dirty: bool,
    pub live_binding: bool,
}

/// Tells whether a GL vendor string names the driver that keeps a bound
/// texture up to date by itself.
pub fn is_nvidia_vendor(vendor: &str) -> (nvidia: bool)
    ensures
        nvidia == has_substring(lowercased_text(vendor@), "nvidia"@),
{
    title_matches(vendor, "nvidia")
}

impl CaptureState {
    /// The state of a new capture, which is dirty so that the first frame
    /// is drawn at once.
    pub fn new(width: u32, height: u32, live_binding: bool) -> (state: CaptureState)
        ensures
            state == (CaptureState { width, height, dirty: true, live_binding }),
    {
        CaptureState { width, height, dirty: true, live_binding }
    }

    /// Takes note that the window was drawn to.
    pub fn mark_dirty(&mut self)
        ensures
            *final(self) == (CaptureState { dirty: true, ..*old(self) }),
    {
        self.dirty = true;
    }

    /// Tells whether the window was drawn to since the last frame.
    pub fn is_dirty(&self) -> (dirty: bool)
        ensures
            dirty == self.dirty,
    {
        self.dirty
    }

    /// The width the capture was set up for.
    pub fn width(&self) -> (width: u32)
        ensures
            width == self.width,
    {
        self.width
    }

    /// The height the capture was set up for.
    pub fn height(&self) -> (height: u32)
        ensures
            height == self.height,
    {
        self.height
    }

    /// Decides how the texture is brought up to date, after which the
    /// capture is clean.
    pub fn update_if_dirty(&mut self) -> (update: CaptureUpdate)
        ensures
            *final(self) == (CaptureState { dirty: false, ..*old(self) }),
            update == if !old(self).dirty {
                CaptureUpdate::Clean
            } else if old(self).live_binding {
                CaptureUpdate::Sync
            } else {
                CaptureUpdate::Rebind
            },
    {
        if !self.dirty {
            return CaptureUpdate::Clean;
        }
        self.dirty = false;
        if self.live_binding {
            CaptureUpdate::Sync
        } else {
            CaptureUpdate::Rebind
        }
    }

    /// Tells whether a window of the given size needs the capture to be set
    /// up anew.
    pub fn needs_resize(&self, new_width: u32, new_height: u32) -> (needed: bool)
        ensures
            needed == !(new_width == self.width && new_height == self.height),
    {
        !(new_width == self.width && new_height == self.height)
    }

    /// Takes note that the capture was set up anew for the given size, which
    /// leaves it dirty.
    pub fn resized(&mut self, new_width: u32, new_height: u32)
        ensures
            *final(self) == (CaptureState {
                width: new_width,
                height: new_height,
                dirty: true,
                ..*old(self)
            }),
    {
        self.width = new_width;
        self.height = new_height;
        self.dirty = true;
    }
}

/// The pause between two looks for a window, in milliseconds.
pub const WINDOW_POLL_MS: u64 = 500;

/// What to do next while waiting for a window.
#[derive(Clone, Copy, Debug, PartialEq, Eq, Structural)]
pub enum WaitStep {
    /// The window is there.
    Found,
    /// Not yet: wait this long and look again.
    Sleep { ms: u64 },
    /// Not in time: fail with what the last look reported.
    GiveUp,
}

/// The step that follows the look number `attempt`, counted from zero, when
/// two looks are made for each second of `timeout_secs`.
pub open spec fn next_wait_step(found: bool, attempt: u32, timeout_secs: u32) -> WaitStep {
    if found {
        WaitStep::Found
    } else if attempt + 1 < 2 * timeout_secs {
        WaitStep::Sleep { ms: WINDOW_POLL_MS }
    } else {
        WaitStep::GiveUp
    }
}

/// Decides how the wait for a window goes on after a look.
pub fn wait_step(found: bool, attempt: u32, timeout_secs: u32) -> (step: WaitStep)
    ensures
        step == next_wait_step(found, attempt, timeout_secs),
{
    if found {
        WaitStep::Found
    } else if (attempt as u64) + 1 < 2 * (timeout_secs as u64) {
        WaitStep::Sleep { ms: WINDOW_POLL_MS }
    } else {
        WaitStep::GiveUp
    }
}

/// Tells whether an error of the X server is one of those that the texture
/// extension of some drivers raises for no reason, which are not worth a
/// warning.
pub fn is_benign_x11_error(request_code: u8, error_code: u8) -> (benign: bool)
    ensures
        benign == ((request_code == 152 || request_code == 156) && (error_code == 9
            || error_code == 161)),
{
    (request_code == 152 || request_code == 156) && (error_code == 9 || error_code == 161)
}

} // verus!
