//! The event pump: what the thread that owns the platform event loop decides for each
//! event.
//!
//! The pump tracks whether the application is visible, tells the platform loop to poll
//! while it is and to wait for the next event while it is not, forwards events to the
//! render thread, and asks the loop to exit once the render thread is gone.

use vstd::prelude::*;

use crate::channel::{Disconnected, EventSender};
use crate::event::{PlatformEvent, WindowEvent};

verus! {

/// How the platform loop is to go on after the current iteration.
#[derive(Clone, Copy, Debug, PartialEq, Eq, Structural)]
pub enum ControlFlow {
    /// Start the next iteration at once: frames are wanted as fast as possible.
    Poll,
    /// Sleep until the platform has another event: nothing is visible.
    Wait,
}

/// Whether the platform loop is to keep running.
#[derive(Clone, Copy, Debug, PartialEq, Eq, Structural)]
pub enum PumpVerdict {
    Continue,
    Exit,
}

/// An event arrived for a window that the pump does not own.
#[derive(Clone, Copy, Debug, PartialEq, Eq, Structural)]
pub struct ForeignWindow {
    /// The window the event was addressed to.
    pub window_id: u64,
}

/// The pump's state: the one window it owns, whether the application is visible, and the
/// channel to the render thread.
#[verifier::reject_recursive_types(R)]
pub struct EventPump<R> {
    window_id: u64,
    has_window: bool,
    event_send: EventSender<PlatformEvent<R>>,
}

/// Whether the application is visible after `event`, given whether it was before.
pub open spec fn visible_after<R>(visible: bool, event: PlatformEvent<R>) -> bool {
    match event {
        PlatformEvent::Suspended => false,
        PlatformEvent::Resumed => true,
        _ => visible,
    }
}

/// How the platform loop is driven: polled while visible, waiting otherwise.
pub open spec fn control_flow_for(visible: bool) -> ControlFlow {
    if visible {
        ControlFlow::Poll
    } else {
        ControlFlow::Wait
    }
}

/// The window that `event` is addressed to, if it is a window event.
pub open spec fn target_window<R>(event: PlatformEvent<R>) -> Option<u64> {
    match event {
        PlatformEvent::Window { window_id, .. } => Some(window_id),
        _ => None,
    }
}

/// Whether `event` may reach a pump that owns the window `window_id`: window events
/// have to be addressed to that window.
pub open spec fn addressed_to<R>(window_id: u64, event: PlatformEvent<R>) -> bool {
    target_window(event) matches Some(target) ==> target == window_id
}

/// Whether `event` goes on to the render thread: everything does but a change of the
/// scale factor, which this layer drops.
pub open spec fn forwarded<R>(event: PlatformEvent<R>) -> bool {
    !(event matches PlatformEvent::Window { event: WindowEvent::ScaleFactorChanged, .. })
}

/// Whether the loop goes on after an event was handed to the channel with the outcome
/// `sent`: a failed send means that the render thread is gone, and the loop is to exit.
pub open spec fn verdict_after(sent: Result<(), Disconnected>) -> PumpVerdict {
    match sent {
        Ok(()) => PumpVerdict::Continue,
        Err(_) => PumpVerdict::Exit,
    }
}

/// The verdict on `event`, where `sent` is the outcome of the send if one is made.
pub open spec fn forward_verdict<R>(event: PlatformEvent<R>, sent: Result<(), Disconnected>)
    -> PumpVerdict {
    if forwarded(event) {
        verdict_after(sent)
    } else {
        PumpVerdict::Continue
    }
}

/// Executable form of [`forwarded`].
pub fn is_forwarded<R>(event: &PlatformEvent<R>) -> (forward: bool)
    ensures
        forward == forwarded(*event),
{
    match event {
        PlatformEvent::Window { event: WindowEvent::ScaleFactorChanged, .. } => false,
        _ => true,
    }
}

/// Executable form of [`verdict_after`].
pub fn verdict(sent: Result<(), Disconnected>) -> (verdict: PumpVerdict)
    ensures
        verdict == verdict_after(sent),
        verdict == PumpVerdict::Exit <==> sent is Err,
{
    match sent {
        Ok(()) => PumpVerdict::Continue,
        Err(_) => PumpVerdict::Exit,
    }
}

impl<R> EventPump<R> {
    /// A pump for the window `window_id`, sending to `event_send`. The application
    /// counts as visible until the platform says otherwise.
    pub fn new(window_id: u64, event_send: EventSender<PlatformEvent<R>>) -> (pump: Self)
        ensures
            pump.window_id() == window_id,
            pump.visible(),
    {
        EventPump { window_id, has_window: true, event_send }
    }

    /// The window that this pump owns.
    pub closed spec fn window_id(&self) -> u64 {
        self.window_id
    }

    /// Whether the application is visible.
    pub closed spec fn visible(&self) -> bool {
        self.has_window
    }

    /// Whether `event` may reach this pump.
    pub open spec fn admits(&self, event: PlatformEvent<R>) -> bool {
        addressed_to(self.window_id(), event)
    }

    /// Executable form of [`Self::window_id`].
    pub fn owned_window(&self) -> (window_id: u64)
        ensures
            window_id == self.window_id(),
    {
        self.window_id
    }

    /// Executable form of [`Self::visible`].
    pub fn is_visible(&self) -> (visible: bool)
        ensures
            visible == self.visible(),
    {
        self.has_window
    }

    /// How the platform loop is to be driven in the current state.
    pub fn control_flow(&self) -> (flow: ControlFlow)
        ensures
            flow == control_flow_for(self.visible()),
    {
        if self.has_window {
            ControlFlow::Poll
        } else {
            ControlFlow::Wait
        }
    }

    /// Checks that `event` is not addressed to a window other than the pump's own.
    pub fn check_window(&self, event: &PlatformEvent<R>) -> (checked: Result<(), ForeignWindow>)
        ensures
            checked is Ok <==> self.admits(*event),
            checked matches Err(foreign) ==> target_window(*event) == Some(foreign.window_id),
    {
        match event {
            PlatformEvent::Window { window_id, .. } => {
                if *window_id == self.window_id {
                    Ok(())
                } else {
                    Err(ForeignWindow { window_id: *window_id })
                }
            },
            _ => Ok(()),
        }
    }

    /// Takes note of `event`: a suspend makes the application invisible, a resume makes
    /// it visible. Returns how the platform loop is to be driven from now on.
    pub fn observe(&mut self, event: &PlatformEvent<R>) -> (flow: ControlFlow)
        requires
            old(self).admits(*event),
        ensures
            final(self).visible() == visible_after(old(self).visible(), *event),
            final(self).window_id() == old(self).window_id(),
            flow == control_flow_for(final(self).visible()),
    {
        match event {
            PlatformEvent::Suspended => {
                self.has_window = false;
            },
            PlatformEvent::Resumed => {
                self.has_window = true;
            },
            _ => {},
        }
        self.control_flow()
    }

    /// As [`Self::observe`], but refuses an event addressed to another window and then
    /// leaves the pump as it was.
    pub fn try_observe(&mut self, event: &PlatformEvent<R>) -> (flow: Result<
        ControlFlow,
        ForeignWindow,
    >)
        ensures
            final(self).window_id() == old(self).window_id(),
            flow is Ok <==> old(self).admits(*event),
            flow matches Ok(control_flow) ==> final(self).visible() == visible_after(
                old(self).visible(),
                *event,
            ) && control_flow == control_flow_for(final(self).visible()),
            flow matches Err(foreign) ==> final(self).visible() == old(self).visible()
                && target_window(*event) == Some(foreign.window_id),
    {
        match self.check_window(event) {
            Ok(()) => Ok(self.observe(event)),
            Err(foreign) => Err(foreign),
        }
    }

    /// Sends `event` on to the render thread unless it is one that this layer drops, and
    /// says whether the platform loop is to go on. The loop is to exit exactly when a
    /// send was made and failed; whether it fails depends on the render thread.
    pub fn forward(&self, event: PlatformEvent<R>) -> (verdict: PumpVerdict)
        ensures
            exists|sent: Result<(), Disconnected>| verdict == forward_verdict(event, sent),
            !forwarded(event) ==> verdict == PumpVerdict::Continue,
    {
        if is_forwarded(&event) {
            let sent = self.event_send.send(event);
            assert(verdict_after(sent) == forward_verdict(event, sent));
            verdict(sent)
        } else {
            assert(PumpVerdict::Continue == forward_verdict(event, Ok::<(), Disconnected>(())));
            PumpVerdict::Continue
        }
    }
}

} // verus!
