//! Setting up the two ends of a render loop, and what the side that joins the render
//! thread reports when that thread has panicked.

use std::sync::Arc;
use vstd::prelude::*;

use crate::channel::{event_channel, EventSender};
use crate::event::PlatformEvent;
use crate::event_pump::EventPump;
use crate::event_source::EventSource;
use crate::handshake::{handed_over, AlreadySet, EarlyWindowData, HandshakeCell};

verus! {

/// How the window of a render loop is to be created.
#[derive(Clone, Copy, Debug, PartialEq, Eq)]
pub struct RenderLoopCreateDesc {
    pub window_title: &'static str,
    pub window_size: (u32, u32),
}

/// The event-pump thread's end of a render loop before the window exists: the producing
/// end of the event channel and the writing end of the handshake cell.
#[verifier::reject_recursive_types(R)]
pub struct RenderLoopSetup<R> {
    create_desc: RenderLoopCreateDesc,
    event_send: EventSender<PlatformEvent<R>>,
    early_window_data: HandshakeCell,
}

/// What is reported of a panic whose payload is no text.
pub open spec fn unknown_panic() -> Seq<char> {
    "Unknown boxed error type"@
}

/// The text reported of a panic, given the text of its payload if it has one.
pub open spec fn panic_text(payload: Option<Seq<char>>) -> Seq<char> {
    match payload {
        Some(text) => text,
        None => unknown_panic(),
    }
}

/// The text to report of a panicked render thread: the payload if it is text, a fixed
/// notice otherwise.
pub fn panic_message<'a>(payload: Option<&'a str>) -> (message: &'a str)
    ensures
        message@ == panic_text(
            match payload {
                Some(text) => Some(text@),
                None => None,
            },
        ),
{
    match payload {
        Some(text) => text,
        None => "Unknown boxed error type",
    }
}

/// The data handed over for a window that was created from `create_desc`.
pub open spec fn window_data_for(
    create_desc: RenderLoopCreateDesc,
    winit_window: Option<Arc<winit::window::Window>>,
) -> EarlyWindowData {
    EarlyWindowData { window_size: create_desc.window_size, winit_window }
}

impl<R> RenderLoopSetup<R> {
    /// Makes the event channel and the handshake cell of a render loop, and hands out
    /// the event-pump thread's end and the render thread's end. The event source starts
    /// without a swapchain.
    pub fn connect<S>(create_desc: RenderLoopCreateDesc) -> (ends: (Self, EventSource<R, S>))
        ensures
            ends.0.create_desc() == create_desc,
            ends.0.pristine(),
            ends.0.window_cell() == ends.1.window_cell(),
            ends.0.window_data() == ends.1.window_data(),
            ends.1.swapchain() is None,
    {
        let (event_send, event_recv) = event_channel();
        let early_window_data = HandshakeCell::new();
        let source = EventSource::new(event_recv, early_window_data.share());
        (RenderLoopSetup { create_desc, event_send, early_window_data }, source)
    }

    /// The description that the loop was set up with.
    pub closed spec fn create_desc(&self) -> RenderLoopCreateDesc {
        self.create_desc
    }

    /// The handshake cell that the window's data will be written to.
    pub closed spec fn window_cell(&self) -> once_cell::sync::OnceCell<EarlyWindowData> {
        self.early_window_data.cell()
    }

    /// The window's data as the render thread reads them from the handshake cell.
    pub open spec fn window_data(&self) -> EarlyWindowData {
        handed_over(self.window_cell())
    }

    /// No write to the handshake cell has been attempted yet.
    pub closed spec fn pristine(&self) -> bool {
        !self.early_window_data.has_written()
    }

    /// The size the window is to be created with, in physical pixels.
    pub fn window_size(&self) -> (size: (u32, u32))
        ensures
            size == self.create_desc().window_size,
    {
        self.create_desc.window_size
    }

    /// The title the window was asked for.
    pub fn window_title(&self) -> (title: &'static str)
        ensures
            title == self.create_desc().window_title,
    {
        self.create_desc.window_title
    }

    /// Hands the freshly created window over to the render thread and turns the setup
    /// into the pump for that window.
    ///
    /// The window's data go into the handshake cell: the size from the description, and
    /// the window itself. On success they are what the render thread reads from the
    /// cell. Fails, giving the data back, if the cell reports that it has been written
    /// before; whether it does is the cell's to say.
    pub fn open_window(
        self,
        window_id: u64,
        winit_window: Option<Arc<winit::window::Window>>,
    ) -> (pump: Result<EventPump<R>, AlreadySet>)
        ensures
            pump matches Ok(pump) ==> pump.window_id() == window_id && pump.visible()
                && self.window_data() == window_data_for(self.create_desc(), winit_window),
            pump matches Err(refused) ==> refused.0 == window_data_for(
                self.create_desc(),
                winit_window,
            ),
    {
        let RenderLoopSetup { create_desc, event_send, early_window_data } = self;
        let mut writer = early_window_data;
        let data = EarlyWindowData { window_size: create_desc.window_size, winit_window };
        match writer.write(data) {
            Ok(()) => Ok(EventPump::new(window_id, event_send)),
            Err(refused) => Err(refused),
        }
    }
}

} // verus!
