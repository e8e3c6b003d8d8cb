//! The commands that the video elements send to a compositor, and what the
//! compositor does with each when its event loop takes it from the channel.
//!
//! A compositor has one unbounded channel with many senders and one
//! receiver. The event loop takes the commands off in the order in which the
//! channel hands them out and gives each to [`Session::apply`]. The channel
//! itself, the buffers, the format descriptions and the buffer pools belong
//! to the caller: the types here carry them through unread.

use vstd::prelude::*;

verus! {

/// Whether a pointer button is held down.
#[derive(Clone, Copy, Debug, PartialEq, Eq, Structural)]
pub enum ButtonState {
    Released,
    Pressed,
}

/// Whether a key is held down.
#[derive(Clone, Copy, Debug, PartialEq, Eq, Structural)]
pub enum KeyState {
    Released,
    Pressed,
}

/// A pair of coordinates or of deltas. Each number is carried as the 64 bits
/// of its binary64 form and is never computed with.
#[derive(Clone, Copy, Debug, PartialEq, Eq, Structural)]
pub struct Coordinates {
    pub x: u64,
    pub y: u64,
}

/// An input event to be injected into the compositor's seat.
#[derive(Clone, Copy, Debug, PartialEq, Eq)]
pub enum InputEvent {
    /// The pointer moved by a distance.
    PointerMotion(Coordinates),
    /// The pointer moved to a place on the output.
    PointerMotionAbsolute(Coordinates),
    /// A pointer button, by its code, changed its state.
    PointerButton(u32, ButtonState),
    /// The pointer scrolled by these deltas.
    PointerAxis(Coordinates),
    /// A key, by its code, changed its state.
    KeyboardInput(u32, KeyState),
    /// A touch point, by its id, went down at a place.
    TouchDown(u32, Coordinates),
    /// A touch point was lifted.
    TouchUp(u32),
    /// A touch point moved to a place.
    TouchMotion(u32, Coordinates),
    /// The touch events sent so far belong together.
    TouchFrame,
    /// The touch sequence was called off.
    TouchCancel,
}

/// The answer to a request for a secondary frame when none is there yet. It
/// is an ordinary answer: the one who asked waits a little and asks again.
#[derive(Clone, Copy, Debug, PartialEq, Eq, Structural)]
pub struct NotReady;

/// A message to the compositor. `F` describes a video format, `R` is the
/// single-use channel on which one request is answered, `P` is a buffer
/// pool.
#[derive(Debug, PartialEq, Eq)]
pub enum Command<F, R, P> {
    /// The format negotiated for the primary output. It replaces the one
    /// that was declared before.
    VideoInfo(F),
    /// The format negotiated for the secondary output.
    SecondaryVideoInfo(F),
    /// Asks for the next rendered frame of the secondary output. The answer
    /// goes to the channel that the request carries.
    SecondaryBuffer(R),
    /// The path of an input device to take events from.
    InputDevice(String),
    /// An input event to inject.
    Input(InputEvent),
    /// A buffer pool to allocate frames of the primary output from.
    UpdateBufferPool(P),
}

/// What the event loop has to do after a command was applied.
#[derive(Debug, PartialEq, Eq)]
pub enum Action<R, B> {
    /// Nothing: the command only changed what the compositor has on record.
    Nothing,
    /// Open the input device at this path and feed its events to the seat.
    AddInputDevice(String),
    /// Inject the event into the seat.
    Inject(InputEvent),
    /// Send the answer on the request's channel, which is then used up.
    Reply(R, Result<B, NotReady>),
}

/// What a compositor has on record for its video elements. `B` is a rendered
/// frame.
#[derive(Debug, PartialEq, Eq)]
pub struct Session<F, P, B> {
    /// The format of the primary output, once declared.
    pub video_info: Option<F>,
    /// The format of the secondary output, once declared.
    pub secondary_video_info: Option<F>,
    /// The pool that frames of the primary output are allocated from.
    pub buffer_pool: Option<P>,
    /// The frame of the secondary output that was rendered and not yet
    /// handed out.
    pub secondary_frame: Option<B>,
}

/// The record after one command, as a function of the record before.
pub open spec fn applied<F, R, P, B>(s: Session<F, P, B>, command: Command<F, R, P>) -> Session<
    F,
    P,
    B,
> {
    match command {
        Command::VideoInfo(f) => Session { video_info: Some(f), ..s },
        Command::SecondaryVideoInfo(f) => Session { secondary_video_info: Some(f), ..s },
        Command::SecondaryBuffer(_) => Session { secondary_frame: None, ..s },
        Command::InputDevice(_) => s,
        Command::Input(_) => s,
        Command::UpdateBufferPool(p) => Session { buffer_pool: Some(p), ..s },
    }
}

/// The answer to a request for a secondary frame: the frame that waits, or
/// `NotReady` where none does.
pub open spec fn answer<B>(frame: Option<B>) -> Result<B, NotReady> {
    match frame {
        Some(b) => Ok(b),
        None => Err(NotReady),
    }
}

/// What is left to do after one command.
pub open spec fn action_for<F, R, P, B>(s: Session<F, P, B>, command: Command<F, R, P>) -> Action<
    R,
    B,
> {
    match command {
        Command::VideoInfo(_) => Action::Nothing,
        Command::SecondaryVideoInfo(_) => Action::Nothing,
        Command::SecondaryBuffer(r) => Action::Reply(r, answer(s.secondary_frame)),
        Command::InputDevice(path) => Action::AddInputDevice(path),
        Command::Input(e) => Action::Inject(e),
        Command::UpdateBufferPool(_) => Action::Nothing,
    }
}

/// The record after the commands of `commands` were applied in their order.
pub open spec fn applied_all<F, R, P, B>(
    s: Session<F, P, B>,
    commands: Seq<Command<F, R, P>>,
) -> Session<F, P, B>
    decreases commands.len(),
{
    if commands.len() == 0 {
        s
    } else {
        applied(applied_all(s, commands.drop_last()), commands.last())
    }
}

impl<F, P, B> Session<F, P, B> {
    /// A record with nothing on it.
    pub fn new() -> (session: Session<F, P, B>)
        ensures
            session.video_info.is_none(),
            session.secondary_video_info.is_none(),
            session.buffer_pool.is_none(),
            session.secondary_frame.is_none(),
    {
        Session {
            video_info: None,
            secondary_video_info: None,
            buffer_pool: None,
            secondary_frame: None,
        }
    }

    /// Applies one command taken from the channel.
    ///
    /// A format or a pool is put on record as it came. A request for a
    /// secondary frame takes the waiting frame, if there is one, and is
    /// answered with it; without a frame it is answered `NotReady`. Devices
    /// and input events are handed back for the caller to act on.
    pub fn apply<R>(&mut self, command: Command<F, R, P>) -> (action: Action<R, B>)
        ensures
            *final(self) == applied(*old(self), command),
            action == action_for(*old(self), command),
    {
        match command {
            Command::VideoInfo(f) => {
                self.video_info = Some(f);
                Action::Nothing
            },
            Command::SecondaryVideoInfo(f) => {
                self.secondary_video_info = Some(f);
                Action::Nothing
            },
            Command::SecondaryBuffer(r) => {
                let reply = match self.secondary_frame.take() {
                    Some(b) => Ok(b),
                    None => Err(NotReady),
                };
                Action::Reply(r, reply)
            },
            Command::InputDevice(path) => Action::AddInputDevice(path),
            Command::Input(e) => Action::Inject(e),
            Command::UpdateBufferPool(p) => {
                self.buffer_pool = Some(p);
                Action::Nothing
            },
        }
    }

    /// Puts a newly rendered frame of the secondary output on record, in
    /// place of one that was never asked for.
    pub fn secondary_frame_rendered(&mut self, frame: B)
        ensures
            *final(self) == (Session { secondary_frame: Some(frame), ..*old(self) }),
    {
        self.secondary_frame = Some(frame);
    }
}

/// A declared format is on record exactly as it was sent, and stays so
/// through every command that declares no format for the same output.
pub proof fn law_video_info_round_trip<F, R, P, B>(
    s: Session<F, P, B>,
    format: F,
    later: Seq<Command<F, R, P>>,
)
    requires
        forall|i: int| 0 <= i < later.len() ==> !(#[trigger] later[i] is VideoInfo),
    ensures
        applied::<F, R, P, B>(s, Command::VideoInfo(format)).video_info == Some(format),
        applied_all(applied::<F, R, P, B>(s, Command::VideoInfo(format)), later).video_info
            == Some(format),
    decreases later.len(),
{
    if later.len() > 0 {
        let head = later.drop_last();
        assert forall|i: int| 0 <= i < head.len() implies !(#[trigger] head[i] is VideoInfo) by {
            assert(head[i] == later[i]);
        }
        law_video_info_round_trip::<F, R, P, B>(s, format, head);
        assert(!(later[later.len() - 1] is VideoInfo));
    }
}

/// The same for the secondary output.
pub proof fn law_secondary_video_info_round_trip<F, R, P, B>(
    s: Session<F, P, B>,
    format: F,
    later: Seq<Command<F, R, P>>,
)
    requires
        forall|i: int| 0 <= i < later.len() ==> !(#[trigger] later[i] is SecondaryVideoInfo),
    ensures
        applied::<F, R, P, B>(s, Command::SecondaryVideoInfo(format)).secondary_video_info == Some(
            format,
        ),
        applied_all(
            applied::<F, R, P, B>(s, Command::SecondaryVideoInfo(format)),
            later,
        ).secondary_video_info == Some(format),
    decreases later.len(),
{
    if later.len() > 0 {
        let head = later.drop_last();
        assert forall|i: int| 0 <= i < head.len() implies !(
        #[trigger] head[i] is SecondaryVideoInfo) by {
            assert(head[i] == later[i]);
        }
        law_secondary_video_info_round_trip::<F, R, P, B>(s, format, head);
        assert(!(later[later.len() - 1] is SecondaryVideoInfo));
    }
}

/// What happens to a compositor's record in the course of its event loop:
/// a command arrives, or a frame of the secondary output was rendered.
pub enum SessionEvent<F, R, P, B> {
    Command(Command<F, R, P>),
    Rendered(B),
}

/// The record after one event.
pub open spec fn after_event<F, R, P, B>(
    s: Session<F, P, B>,
    event: SessionEvent<F, R, P, B>,
) -> Session<F, P, B> {
    match event {
        SessionEvent::Command(c) => applied(s, c),
        SessionEvent::Rendered(b) => Session { secondary_frame: Some(b), ..s },
    }
}

/// The record after the events of `events` in their order.
pub open spec fn after_events<F, R, P, B>(
    s: Session<F, P, B>,
    events: Seq<SessionEvent<F, R, P, B>>,
) -> Session<F, P, B>
    decreases events.len(),
{
    if events.len() == 0 {
        s
    } else {
        after_event(after_events(s, events.drop_last()), events.last())
    }
}

/// How many requests for a frame were answered with a frame in the course of
/// `events`.
pub open spec fn frames_handed_out<F, R, P, B>(
    s: Session<F, P, B>,
    events: Seq<SessionEvent<F, R, P, B>>,
) -> nat
    decreases events.len(),
{
    if events.len() == 0 {
        0
    } else {
        let before = after_events(s, events.drop_last());
        let so_far = frames_handed_out(s, events.drop_last());
        match events.last() {
            SessionEvent::Command(Command::SecondaryBuffer(_)) => if before.secondary_frame.is_some() {
                so_far + 1
            } else {
                so_far
            },
            _ => so_far,
        }
    }
}

/// How many frames were rendered in the course of `events`.
pub open spec fn frames_rendered<F, R, P, B>(events: Seq<SessionEvent<F, R, P, B>>) -> nat
    decreases events.len(),
{
    if events.len() == 0 {
        0
    } else {
        frames_rendered(events.drop_last()) + if events.last() is Rendered {
            1nat
        } else {
            0nat
        }
    }
}

/// One if a frame waits on the record, zero else.
pub open spec fn frames_waiting<F, P, B>(s: Session<F, P, B>) -> nat {
    if s.secondary_frame.is_some() {
        1
    } else {
        0
    }
}

/// No frame is handed out twice and none is made up: over any course of
/// events, the frames handed out and the frame still waiting are no more
/// than the frames rendered and the frame that waited at the start.
pub proof fn law_no_frame_twice<F, R, P, B>(
    s: Session<F, P, B>,
    events: Seq<SessionEvent<F, R, P, B>>,
)
    ensures
        frames_handed_out(s, events) + frames_waiting(after_events(s, events)) <= frames_rendered(
            events,
        ) + frames_waiting(s),
    decreases events.len(),
{
    if events.len() > 0 {
        law_no_frame_twice(s, events.drop_last());
    }
}

/// A rendered frame is handed out once: the first request after it was
/// rendered is answered with it, and a request that follows with no frame
/// rendered in between is answered `NotReady`.
pub proof fn law_frame_is_handed_out_once<F, R, P, B>(s: Session<F, P, B>, frame: B, r1: R, r2: R)
    ensures
        ({
            let rendered = Session { secondary_frame: Some(frame), ..s };
            let first = Command::<F, R, P>::SecondaryBuffer(r1);
            let second = Command::<F, R, P>::SecondaryBuffer(r2);
            &&& action_for(rendered, first) == Action::Reply(r1, Ok::<B, NotReady>(frame))
            &&& action_for(applied(rendered, first), second) == Action::Reply(
                r2,
                Err::<B, NotReady>(NotReady),
            )
        }),
{
}

} // verus!
