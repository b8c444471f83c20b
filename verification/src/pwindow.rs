//! The process-wide window handle and the frame handoff path.
//!
//! A `Window` bundles the channel endpoints that coordinate the three
//! execution contexts: the experiment thread submits frames through a
//! single-slot handoff channel (submission blocks while the previous frame
//! is unconsumed, the system's primary backpressure); presentation tasks
//! pull frames, interpret their prepare/draw plans against the graphics
//! backend, and push a completion acknowledgement back through a reverse
//! single-slot channel; the OS-event thread publishes key events into the
//! broadcast relay whose listening end lives here.

use vstd::prelude::*;

use crate::errors::PsychophysicsError;
use crate::input::KeyEvent;
use crate::visual::{prepare_plan, render_plan, Frame, DrawEncoder, DrawOp, Renderable,
    RenderContext, frame_empty, Color};

verus! {

/// The frame handoff channel holds at most one frame in flight.
pub const FRAME_SLOT_CAPACITY: usize = 1;

/// The acknowledgement channel holds at most one pending completion.
pub const ACK_SLOT_CAPACITY: usize = 1;

/// How many key events the broadcast relay buffers for each listener
/// before its overflow policy drops the oldest.
pub const KEY_EVENT_BUFFER: usize = 100;

#[verifier::external_type_specification]
#[verifier::external_body]
#[verifier::reject_recursive_types(T)]
pub struct ExChannelSender<T>(async_channel::Sender<T>);

#[verifier::external_type_specification]
#[verifier::external_body]
#[verifier::reject_recursive_types(T)]
pub struct ExChannelReceiver<T>(async_channel::Receiver<T>);

/// Relies on Clone for async_channel::Sender: the copy is a handle to the
/// same channel.
pub assume_specification<T>[ <async_channel::Sender<T> as std::clone::Clone>::clone ](
    sender: &async_channel::Sender<T>,
) -> async_channel::Sender<T>;

/// Relies on Clone for async_channel::Receiver: the copy is a handle to
/// the same channel; each queued message still arrives at one receiver.
pub assume_specification<T>[ <async_channel::Receiver<T> as std::clone::Clone>::clone ](
    receiver: &async_channel::Receiver<T>,
) -> async_channel::Receiver<T>;

/// The outcome of a non-blocking send attempt; when the message could not
/// be enqueued it is handed back.
pub enum TrySendOutcome<T> {
    /// The message was enqueued.
    Sent,
    /// The channel was full; the message is returned.
    Full(T),
    /// The channel was closed; the message is returned.
    Closed(T),
}

/// Relies on async_channel::bounded: a FIFO channel holding at most `cap`
/// queued messages; messages arrive in submission order. `bounded` panics
/// on a zero capacity, so that input is excluded.
#[verifier::external_body]
fn channel_bounded<T>(cap: usize) -> (r: (async_channel::Sender<T>, async_channel::Receiver<T>))
    requires
        cap >= 1,
{
    async_channel::bounded(cap)
}

/// Relies on async_channel::Sender::send_blocking: blocks the calling
/// thread while the channel is full, returns `Ok` once the message is
/// enqueued, and hands the message back when the channel is closed.
#[verifier::external_body]
fn channel_send_blocking<T>(sender: &async_channel::Sender<T>, msg: T) -> (r: Result<(), T>)
    ensures
        r matches Err(m) ==> m == msg,
{
    match sender.send_blocking(msg) {
        Ok(()) => Ok(()),
        Err(async_channel::SendError(m)) => Err(m),
    }
}

/// Relies on async_channel::Receiver::recv_blocking: blocks until a
/// message arrives (messages come out in submission order) or until the
/// channel is closed and drained, which yields `None`.
#[verifier::external_body]
fn channel_recv_blocking<T>(receiver: &async_channel::Receiver<T>) -> (r: Option<T>) {
    match receiver.recv_blocking() {
        Ok(msg) => Some(msg),
        Err(async_channel::RecvError) => None,
    }
}

/// Relies on async_channel::Sender::try_send: enqueues without blocking,
/// or hands the message back when the channel is full or closed.
#[verifier::external_body]
fn channel_try_send<T>(sender: &async_channel::Sender<T>, msg: T) -> (r: TrySendOutcome<T>)
    ensures
        r matches TrySendOutcome::Full(m) ==> m == msg,
        r matches TrySendOutcome::Closed(m) ==> m == msg,
{
    match sender.try_send(msg) {
        Ok(()) => TrySendOutcome::Sent,
        Err(async_channel::TrySendError::Full(m)) => TrySendOutcome::Full(m),
        Err(async_channel::TrySendError::Closed(m)) => TrySendOutcome::Closed(m),
    }
}

/// The plans a presentation task executes against the graphics backend
/// for one fetched frame: the resources to ready, in order, then the draw
/// commands, in order.
pub struct PresentPlan {
    /// The frame the plans were derived from.
    pub frame: Frame,
    /// The backend resources to ready, in preparation order.
    pub prepare_ops: Vec<u64>,
    /// The draw commands, in draw order.
    pub draw_ops: Vec<DrawOp>,
}

/// The single shared handle to the presentation path: the channel
/// endpoints used for cross-thread coordination. Cloned freely across the
/// experiment thread and all presentation tasks; the backend-facing
/// surface state lives with the presentation side, outside this core.
pub struct Window {
    /// Producer end of the single-slot frame handoff channel.
    pub frame_sender: async_channel::Sender<Frame>,
    /// Consumer end of the single-slot frame handoff channel.
    pub frame_receiver: async_channel::Receiver<Frame>,
    /// Producer end of the reverse acknowledgement channel.
    pub frame_ok_sender: async_channel::Sender<bool>,
    /// Consumer end of the reverse acknowledgement channel.
    pub frame_ok_receiver: async_channel::Receiver<bool>,
    /// The keyboard broadcast relay, kept inactive so that buffering only
    /// happens for listeners that actually registered.
    pub keyboard_receiver: async_broadcast::InactiveReceiver<KeyEvent>,
    /// Producer end of the shutdown-request channel.
    pub close_sender: async_channel::Sender<()>,
    /// Consumer end of the shutdown-request channel.
    pub close_receiver: async_channel::Receiver<()>,
}

impl Clone for Window {
    /// The copy is another handle onto the same channels, for sharing the
    /// window across the experiment thread and all presentation tasks.
    fn clone(&self) -> Window {
        Window {
            frame_sender: self.frame_sender.clone(),
            frame_receiver: self.frame_receiver.clone(),
            frame_ok_sender: self.frame_ok_sender.clone(),
            frame_ok_receiver: self.frame_ok_receiver.clone(),
            keyboard_receiver: self.keyboard_receiver.clone(),
            close_sender: self.close_sender.clone(),
            close_receiver: self.close_receiver.clone(),
        }
    }
}

impl Window {
    /// Creates the window handle and the keyboard relay's publisher end.
    ///
    /// The frame handoff and acknowledgement channels are single-slot, so
    /// at most one frame is in flight at any instant; the keyboard relay
    /// buffers [`KEY_EVENT_BUFFER`] events per listener and, being in
    /// overflow mode, drops the oldest buffered event for a saturated
    /// listener rather than blocking the publisher.
    pub fn new() -> (r: (Window, async_broadcast::Sender<KeyEvent>)) {
        let (frame_sender, frame_receiver) = channel_bounded(FRAME_SLOT_CAPACITY);
        let (frame_ok_sender, frame_ok_receiver) = channel_bounded(ACK_SLOT_CAPACITY);
        let (close_sender, close_receiver) = channel_bounded(1);
        let (key_sender, keyboard_receiver) = crate::input::relay_new(KEY_EVENT_BUFFER);
        let window = Window {
            frame_sender,
            frame_receiver,
            frame_ok_sender,
            frame_ok_receiver,
            keyboard_receiver,
            close_sender,
            close_receiver,
        };
        (window, key_sender)
    }

    /// Hands out a fresh, empty frame for the experiment thread to fill.
    pub fn get_frame(&self) -> (f: Frame)
        ensures
            frame_empty(f),
    {
        Frame::new()
    }

    /// Hands out a fresh frame that clears to the given background color.
    pub fn get_frame_with_bg_color(&self, color: Color) -> (f: Frame)
        ensures
            f.renderables@.len() == 0,
            f.is_finnished == false,
            f.bg_color == Some(color),
    {
        Frame::with_bg_color(color)
    }

    /// Submits a frame to the presentation side.
    ///
    /// Blocks while the previous frame is still unconsumed: at most one
    /// frame is ever in flight, and frames are presented in submission
    /// order. Fails only when the handoff channel is closed.
    pub fn submit_frame(&self, frame: Frame) -> (r: Result<(), PsychophysicsError>)
        ensures
            r matches Err(e) ==> e == PsychophysicsError::FrameChannelClosed,
    {
        match channel_send_blocking(&self.frame_sender, frame) {
            Ok(()) => Ok(()),
            Err(_) => Err(PsychophysicsError::FrameChannelClosed),
        }
    }

    /// Blocks until the next submitted frame arrives, readies it, and
    /// returns the plans a presentation task must execute against the
    /// backend; `None` once the handoff channel is closed and drained.
    ///
    /// The returned plans are exactly the fetched frame's: its prepare
    /// plan and its render plan, in order.
    pub fn present_next(&self) -> (r: Option<PresentPlan>)
        ensures
            r matches Some(p) ==> p.prepare_ops@ == prepare_plan(p.frame) && p.draw_ops@
                == render_plan(p.frame),
    {
        match channel_recv_blocking(&self.frame_receiver) {
            None => None,
            Some(frame) => {
                let mut frame = frame;
                let mut ctx = RenderContext::new();
                frame.prepare(&mut ctx);
                let mut enc = DrawEncoder::new();
                frame.render(&mut enc);
                Some(PresentPlan { frame, prepare_ops: ctx.prepared, draw_ops: enc.ops })
            },
        }
    }

    /// Reports that the frame most recently fetched by a presentation
    /// task has actually been displayed; the producer side can pick this
    /// up for timing anchored to display rather than submission.
    pub fn ack_frame(&self) -> (r: Result<(), PsychophysicsError>)
        ensures
            r matches Err(e) ==> e == PsychophysicsError::AckChannelClosed,
    {
        match channel_send_blocking(&self.frame_ok_sender, true) {
            Ok(()) => Ok(()),
            Err(_) => Err(PsychophysicsError::AckChannelClosed),
        }
    }

    /// Blocks until a presentation task acknowledges a displayed frame;
    /// `None` once the acknowledgement channel is closed and drained.
    pub fn wait_frame_ok(&self) -> (r: Option<bool>) {
        channel_recv_blocking(&self.frame_ok_receiver)
    }

    /// Requests whole-process shutdown. Best-effort and non-blocking: a
    /// request already pending is enough, so a full or closed signal
    /// channel is not an error.
    pub fn close(&self) {
        let _ = channel_try_send(&self.close_sender, ());
    }
}

} // verus!
