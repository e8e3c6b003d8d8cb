//! The source element of the secondary output. It runs no compositor of its
//! own: it finds a running one in the registry, keeps the handle on which
//! that compositor takes commands, and asks it for one frame after the
//! other.

use vstd::prelude::*;
use vstd::string::*;
use crate::command::NotReady;
use crate::element::{FlowError, PropertyError, PropertyValue};
use crate::registry::{active, found, EntryView, Registry};
use crate::text::{same_text, text_of};

verus! {

/// How long the element looks for its compositor before it gives up, in
/// milliseconds.
pub const ATTACH_DEADLINE_MS: u64 = 20_000;

/// The pause between two looks into the registry, in milliseconds.
pub const ATTACH_POLL_MS: u64 = 100;

/// The pause before a frame that was not ready is asked for again, in
/// milliseconds.
pub const FRAME_RETRY_MS: u64 = 5;

/// The settings of the secondary element.
#[derive(Debug)]
pub struct Settings {
    /// The name of the compositor to attach to, which is the name of its
    /// display socket. Unset, the element takes the compositor that was
    /// registered last.
    pub compositor_name: Option<String>,
}

/// Why the element found no compositor.
#[derive(Debug, PartialEq, Eq)]
pub enum AttachError {
    /// No compositor is registered under the name that was asked for.
    CompositorNotFound(String),
    /// No name was asked for, and no compositor is registered at all.
    NoActiveCompositor,
}

/// What the element does next while it starts.
#[derive(Debug, PartialEq, Eq)]
pub enum AttachStep {
    /// The compositor was found and its handle is kept: the element has
    /// started.
    Connected,
    /// Nothing found yet: wait this long and look again.
    Retry { sleep_ms: u64 },
    /// Nothing found in time: the element fails to start.
    Failed(AttachError),
}

/// What came of one request for a frame.
#[derive(Debug, PartialEq, Eq)]
pub enum FetchEvent<B> {
    /// The request could not be sent: the compositor's channel is closed.
    SendFailed,
    /// The compositor answered.
    Reply(Result<B, NotReady>),
    /// The channel for the answer was closed without an answer.
    ReplyLost,
}

/// What the element does next while it produces a frame.
#[derive(Debug, PartialEq, Eq)]
pub enum FetchStep<B> {
    /// Hand the frame downstream.
    Deliver(B),
    /// No frame yet: wait this long and send a new request.
    Retry { sleep_ms: u64 },
    /// Give up for good.
    Stop(FlowError),
}

/// The step that follows what came of a request.
pub open spec fn next_fetch_step<B>(event: FetchEvent<B>) -> FetchStep<B> {
    match event {
        FetchEvent::SendFailed => FetchStep::Stop(FlowError::Eos),
        FetchEvent::Reply(Ok(frame)) => FetchStep::Deliver(frame),
        FetchEvent::Reply(Err(_)) => FetchStep::Retry { sleep_ms: FRAME_RETRY_MS },
        FetchEvent::ReplyLost => FetchStep::Stop(FlowError::Eos),
    }
}

/// Decides what follows a request for a frame.
///
/// A frame is delivered. `NotReady` is no failure: the element waits a short
/// fixed time and asks again, however often that happens. A closed channel,
/// whether it shows when the request is sent or when the answer is awaited,
/// is the end of the stream and is never retried.
pub fn fetch_step<B>(event: FetchEvent<B>) -> (step: FetchStep<B>)
    ensures
        step == next_fetch_step(event),
{
    match event {
        FetchEvent::SendFailed => FetchStep::Stop(FlowError::Eos),
        FetchEvent::Reply(reply) => match reply {
            Ok(frame) => FetchStep::Deliver(frame),
            Err(_) => FetchStep::Retry { sleep_ms: FRAME_RETRY_MS },
        },
        FetchEvent::ReplyLost => FetchStep::Stop(FlowError::Eos),
    }
}

/// How the production of one frame went: how it ended, if it has ended, and
/// how long the element waited on the way.
pub struct FetchRun<B> {
    /// The frame delivered or the reason to stop; `None` while the element
    /// still asks.
    pub end: Option<FetchStep<B>>,
    /// The pauses made so far, in milliseconds.
    pub waited_ms: nat,
}

/// The production of one frame, given what came of the requests in their
/// order. The element asks again after each `NotReady` and looks at nothing
/// that comes after a frame or a closed channel.
pub open spec fn fetch_run<B>(events: Seq<FetchEvent<B>>) -> FetchRun<B>
    decreases events.len(),
{
    if events.len() == 0 {
        FetchRun { end: None, waited_ms: 0 }
    } else {
        let before = fetch_run(events.drop_last());
        if before.end.is_some() {
            before
        } else {
            match next_fetch_step(events.last()) {
                FetchStep::Retry { sleep_ms } => FetchRun {
                    end: None,
                    waited_ms: before.waited_ms + sleep_ms as nat,
                },
                step => FetchRun { end: Some(step), waited_ms: before.waited_ms },
            }
        }
    }
}

/// `n` answers of `NotReady`.
pub open spec fn not_ready_times<B>(n: nat) -> Seq<FetchEvent<B>> {
    Seq::new(n, |i: int| FetchEvent::Reply(Err(NotReady)))
}

/// Any number of `NotReady` answers keeps the stream alive, each followed by
/// the same short pause, and the frame that arrives after them is the one
/// delivered.
pub proof fn law_not_ready_is_recoverable<B>(n: nat, frame: B)
    ensures
        fetch_run(not_ready_times::<B>(n)) == (FetchRun::<B> {
            end: None,
            waited_ms: n * FRAME_RETRY_MS as nat,
        }),
        fetch_run(not_ready_times::<B>(n).push(FetchEvent::Reply(Ok(frame)))) == (FetchRun {
            end: Some(FetchStep::Deliver(frame)),
            waited_ms: n * FRAME_RETRY_MS as nat,
        }),
        FRAME_RETRY_MS == 5,
    decreases n,
{
    let all = not_ready_times::<B>(n);
    if n > 0 {
        let fewer = not_ready_times::<B>((n - 1) as nat);
        law_not_ready_is_recoverable::<B>((n - 1) as nat, frame);
        assert(all.drop_last() =~= fewer);
        assert(all.last() == FetchEvent::<B>::Reply(Err(NotReady)));
        assert(n * 5 == (n - 1) * 5 + 5);
    }
    let with_frame = all.push(FetchEvent::Reply(Ok(frame)));
    assert(with_frame.drop_last() =~= all);
    assert(with_frame.last() == FetchEvent::Reply(Ok(frame)));
}

/// A closed channel ends the production for good: whatever would come after
/// it is not looked at.
pub proof fn law_closed_channel_is_final<B>(events: Seq<FetchEvent<B>>, later: FetchEvent<B>)
    requires
        fetch_run(events).end matches Some(FetchStep::Stop(_)),
    ensures
        fetch_run(events.push(later)) == fetch_run(events),
{
    assert(events.push(later).drop_last() =~= events);
}

/// The secondary element. `T` is the handle on which a compositor takes
/// commands.
#[derive(Debug)]
pub struct WaylandDisplaySecondary<T> {
    pub settings: Settings,
    /// The handle of the compositor the element is attached to.
    pub compositor_tx: Option<T>,
}

/// What a look into the registry `s` finds for an element that asks for
/// `name`.
pub open spec fn discovered<T>(s: Seq<EntryView<T>>, name: Option<Seq<char>>) -> Option<T> {
    match name {
        Some(n) => found(s, n),
        None => active(s),
    }
}

/// The error of an element that asked for `name` and found nothing in time.
pub open spec fn attach_failure(name: Option<String>, error: AttachError) -> bool {
    match name {
        Some(n) => error matches AttachError::CompositorNotFound(m) && m@ == n@,
        None => error == AttachError::NoActiveCompositor,
    }
}

impl AttachError {
    /// The text of the message: see [`AttachError::message`].
    pub open spec fn message_text(self) -> Seq<char> {
        match self {
            AttachError::CompositorNotFound(name) => "Could not find compositor '"@ + name@
                + "' in registry. Start the primary dual-screen app first."@,
            AttachError::NoActiveCompositor =>
                "No active compositor found. Start the primary dual-screen app first."@,
        }
    }

    /// The message with which the element fails to start.
    pub fn message(&self) -> (text: String)
        ensures
            text@ == self.message_text(),
    {
        match self {
            AttachError::CompositorNotFound(name) => {
                let mut text = String::from_str("Could not find compositor '");
                text.append(name.as_str());
                text.append("' in registry. Start the primary dual-screen app first.");
                text
            },
            AttachError::NoActiveCompositor => String::from_str(
                "No active compositor found. Start the primary dual-screen app first.",
            ),
        }
    }
}

impl<T> WaylandDisplaySecondary<T> {
    /// An element with default settings that is attached to nothing.
    pub fn new() -> (element: WaylandDisplaySecondary<T>)
        ensures
            element.settings.compositor_name.is_none(),
            element.compositor_tx.is_none(),
    {
        WaylandDisplaySecondary { settings: Settings { compositor_name: None }, compositor_tx: None }
    }

    /// Writes a property. The element has one, `compositor-name`, a text.
    pub fn set_property(&mut self, name: &str, value: PropertyValue) -> (done: Result<
        (),
        PropertyError,
    >)
        ensures
            final(self).compositor_tx == old(self).compositor_tx,
            name@ != "compositor-name"@ ==> done == Err::<(), PropertyError>(
                PropertyError::UnknownProperty,
            ) && final(self).settings == old(self).settings,
            name@ == "compositor-name"@ ==> match value {
                PropertyValue::Text(text) => done.is_ok() && final(self).settings.compositor_name
                    == text,
                PropertyValue::Flag(_) => done == Err::<(), PropertyError>(
                    PropertyError::WrongType,
                ) && final(self).settings == old(self).settings,
            },
    {
        if same_text(name, "compositor-name") {
            match value {
                PropertyValue::Text(text) => {
                    self.settings.compositor_name = text;
                    Ok(())
                },
                PropertyValue::Flag(_) => Err(PropertyError::WrongType),
            }
        } else {
            Err(PropertyError::UnknownProperty)
        }
    }

    /// Reads a property. An unset `compositor-name` reads as the empty text.
    pub fn property(&self, name: &str) -> (value: Result<PropertyValue, PropertyError>)
        ensures
            name@ != "compositor-name"@ ==> value == Err::<PropertyValue, PropertyError>(
                PropertyError::UnknownProperty,
            ),
            name@ == "compositor-name"@ ==> (value matches Ok(PropertyValue::Text(Some(text)))
                && text@ == match self.settings.compositor_name {
                Some(n) => n@,
                None => Seq::<char>::empty(),
            }),
    {
        if same_text(name, "compositor-name") {
            let text = match &self.settings.compositor_name {
                Some(n) => n.clone(),
                None => String::new(),
            };
            Ok(PropertyValue::Text(Some(text)))
        } else {
            Err(PropertyError::UnknownProperty)
        }
    }

    /// Looks the element's compositor up: under the name of the settings, or
    /// the compositor registered last where no name is set.
    pub fn discover<'a>(&self, registry: &'a Registry<T>) -> (handle: Option<&'a T>)
        ensures
            match handle {
                Some(t) => discovered(registry@, text_of(self.settings.compositor_name)) == Some(
                    *t,
                ),
                None => discovered(registry@, text_of(self.settings.compositor_name)).is_none(),
            },
    {
        match &self.settings.compositor_name {
            Some(name) => registry.lookup(name.as_str()),
            None => registry.lookup_active(),
        }
    }

    /// Decides how the start goes on after a look into the registry.
    ///
    /// `found` is what the look brought, `elapsed_ms` the time since the
    /// start began. A handle that was found is kept and the element has
    /// started. Without one the element waits and looks again until
    /// [`ATTACH_DEADLINE_MS`] have passed, and then fails with the reason.
    pub fn attach_step(&mut self, found: Option<T>, elapsed_ms: u64) -> (step: AttachStep)
        ensures
            final(self).settings == old(self).settings,
            found.is_some() ==> step == AttachStep::Connected && final(self).compositor_tx
                == found,
            found.is_none() ==> final(self).compositor_tx == old(self).compositor_tx,
            found.is_none() && elapsed_ms < ATTACH_DEADLINE_MS ==> step == (AttachStep::Retry {
                sleep_ms: ATTACH_POLL_MS,
            }),
            found.is_none() && elapsed_ms >= ATTACH_DEADLINE_MS ==> (step matches AttachStep::Failed(
                error,
            ) && attach_failure(old(self).settings.compositor_name, error)),
    {
        match found {
            Some(tx) => {
                self.compositor_tx = Some(tx);
                AttachStep::Connected
            },
            None => {
                if elapsed_ms >= ATTACH_DEADLINE_MS {
                    match &self.settings.compositor_name {
                        Some(name) => AttachStep::Failed(
                            AttachError::CompositorNotFound(name.clone()),
                        ),
                        None => AttachStep::Failed(AttachError::NoActiveCompositor),
                    }
                } else {
                    AttachStep::Retry { sleep_ms: ATTACH_POLL_MS }
                }
            },
        }
    }

    /// Lets go of the compositor. Returns the handle that was kept.
    pub fn stop(&mut self) -> (handle: Option<T>)
        ensures
            handle == old(self).compositor_tx,
            final(self).compositor_tx.is_none(),
            final(self).settings == old(self).settings,
    {
        self.compositor_tx.take()
    }

    /// The handle to send the next request for a frame on. An element that is
    /// attached to nothing is at the end of its stream.
    pub fn sender(&self) -> (handle: Result<&T, FlowError>)
        ensures
            match handle {
                Ok(t) => self.compositor_tx == Some(*t),
                Err(e) => self.compositor_tx.is_none() && e == FlowError::Eos,
            },
    {
        match &self.compositor_tx {
            Some(t) => Ok(t),
            None => Err(FlowError::Eos),
        }
    }

    /// Tells whether the stream can be sought in. It cannot.
    pub fn is_seekable(&self) -> (seekable: bool)
        ensures
            !seekable,
    {
        false
    }
}

} // verus!
