//! Platform events as the core reads them, and the application events it produces.
//!
//! A platform event is a closed set of recognised kinds plus a passthrough arm. What the
//! core does not interpret travels along as a raw payload of type `R`, untouched.

use std::sync::Arc;
use vstd::prelude::*;

use crate::swapchain::LifecycleSignal;

verus! {

/// What the core reads of a key: whether it is the escape key.
#[derive(Clone, Copy, Debug, PartialEq, Eq, Structural)]
pub enum Key {
    Escape,
    Other,
}

/// An event addressed to the window.
#[derive(Debug, PartialEq, Eq)]
pub enum WindowEvent<R> {
    /// The window's drawable area now has this size, in physical pixels.
    Resized { width: u32, height: u32 },
    /// The user asked to close the window.
    CloseRequested,
    /// A key was pressed or released; `raw` is the platform's own record of it.
    KeyboardInput { key: Key, raw: R },
    /// The window moved to a display with another scale factor.
    ScaleFactorChanged,
    /// Any other window event, uninterpreted.
    Other(R),
}

/// Everything the platform event loop can report.
#[derive(Debug, PartialEq, Eq)]
pub enum PlatformEvent<R> {
    /// An event for the window with the given identifier.
    Window { window_id: u64, event: WindowEvent<R> },
    /// The application is no longer visible.
    Suspended,
    /// The application became visible.
    Resumed,
    /// One iteration of the event loop has ended: the moment to render a frame.
    AboutToWait,
    /// Any other event, uninterpreted.
    Other(R),
}

/// What the event source hands to the render loop for each platform event.
#[derive(Debug, PartialEq, Eq)]
pub enum EventSourceEvent<R, S> {
    /// The render loop is to end.
    Terminate,
    /// A frame is due, on this swapchain; `None` while the application is not visible.
    Render(Option<Arc<S>>),
    /// A platform event, passed through.
    Event(PlatformEvent<R>),
    /// A window event, passed through.
    WindowEvent(WindowEvent<R>),
}

/// What the render loop does with an application event.
#[derive(Debug, PartialEq, Eq)]
pub enum FrameAction<S> {
    /// Leave the loop.
    Stop,
    /// Nothing to draw for this event.
    Skip,
    /// Draw one frame on this swapchain.
    Draw(Arc<S>),
}

/// The visibility transition that `event` announces, if it announces one.
pub open spec fn signal_of<R>(event: PlatformEvent<R>) -> Option<LifecycleSignal> {
    match event {
        PlatformEvent::Suspended => Some(LifecycleSignal::Suspended),
        PlatformEvent::Resumed => Some(LifecycleSignal::Resumed),
        _ => None,
    }
}

/// Whether a window event ends the application: a close request or the escape key.
pub open spec fn requests_exit<R>(event: WindowEvent<R>) -> bool {
    match event {
        WindowEvent::CloseRequested => true,
        WindowEvent::KeyboardInput { key, .. } => key == Key::Escape,
        _ => false,
    }
}

/// The application event produced for `event` while `swapchain` is the current one.
pub open spec fn emitted<R, S>(event: PlatformEvent<R>, swapchain: Option<Arc<S>>)
    -> EventSourceEvent<R, S> {
    match event {
        PlatformEvent::Window { event: window_event, .. } => if requests_exit(window_event) {
            EventSourceEvent::Terminate
        } else {
            EventSourceEvent::WindowEvent(window_event)
        },
        PlatformEvent::AboutToWait => EventSourceEvent::Render(swapchain),
        _ => EventSourceEvent::Event(event),
    }
}

/// What a render loop does with `event`.
pub open spec fn frame_action<R, S>(event: EventSourceEvent<R, S>) -> FrameAction<S> {
    match event {
        EventSourceEvent::Terminate => FrameAction::Stop,
        EventSourceEvent::Render(Some(swapchain)) => FrameAction::Draw(swapchain),
        _ => FrameAction::Skip,
    }
}

/// A keyboard event for the escape key ends the application. A keyboard event for any
/// other key is passed through as the window event it is, with its raw record. Neither
/// depends on the window or on the swapchain.
pub proof fn lemma_keyboard_input_classification<R, S>(
    window_id: u64,
    key: Key,
    raw: R,
    swapchain: Option<Arc<S>>,
)
    ensures
        key == Key::Escape ==> emitted(
            PlatformEvent::Window { window_id, event: WindowEvent::KeyboardInput { key, raw } },
            swapchain,
        ) == EventSourceEvent::<R, S>::Terminate,
        key != Key::Escape ==> emitted(
            PlatformEvent::Window { window_id, event: WindowEvent::KeyboardInput { key, raw } },
            swapchain,
        ) == EventSourceEvent::<R, S>::WindowEvent(WindowEvent::KeyboardInput { key, raw }),
{
}

/// A frame tick carries the current swapchain as it is, present or absent, and a frame
/// tick without a swapchain is skipped by the render loop: it is no error and draws
/// nothing. The loop stops for a termination and for nothing else, and it draws for a
/// frame tick with a swapchain and for nothing else.
pub proof fn lemma_frame_tick<R, S>(event: EventSourceEvent<R, S>, swapchain: Option<Arc<S>>)
    ensures
        emitted(PlatformEvent::<R>::AboutToWait, swapchain) == EventSourceEvent::<R, S>::Render(
            swapchain,
        ),
        frame_action(EventSourceEvent::<R, S>::Render(None)) == FrameAction::<S>::Skip,
        frame_action(event) is Stop <==> event is Terminate,
        frame_action(event) is Draw <==> event matches EventSourceEvent::Render(Some(_)),
        frame_action(event) matches FrameAction::Draw(on) ==> event == EventSourceEvent::<
            R,
            S,
        >::Render(Some(on)),
{
}

impl<R> WindowEvent<R> {
    /// Whether this event ends the application.
    pub fn is_exit_request(&self) -> (exit: bool)
        ensures
            exit == requests_exit(*self),
    {
        match self {
            WindowEvent::CloseRequested => true,
            WindowEvent::KeyboardInput { key, .. } => match key {
                Key::Escape => true,
                Key::Other => false,
            },
            _ => false,
        }
    }
}

impl<R> PlatformEvent<R> {
    /// The visibility transition that this event announces, if any.
    pub fn signal(&self) -> (signal: Option<LifecycleSignal>)
        ensures
            signal == signal_of(*self),
    {
        match self {
            PlatformEvent::Suspended => Some(LifecycleSignal::Suspended),
            PlatformEvent::Resumed => Some(LifecycleSignal::Resumed),
            _ => None,
        }
    }
}

impl<R, S> EventSourceEvent<R, S> {
    /// Decides what the render loop does with this event. A frame tick without a
    /// swapchain is skipped: the application is not visible yet.
    pub fn into_frame_action(self) -> (action: FrameAction<S>)
        ensures
            action == frame_action(self),
    {
        match self {
            EventSourceEvent::Terminate => FrameAction::Stop,
            EventSourceEvent::Render(Some(swapchain)) => FrameAction::Draw(swapchain),
            _ => FrameAction::Skip,
        }
    }
}

} // verus!
