//! The event source: the render thread's view of the platform.
//!
//! It takes platform events off the event channel one at a time, turns each into exactly
//! one application event, and creates and destroys the swapchain as the application
//! becomes visible and invisible.

use std::sync::Arc;
use vstd::prelude::*;

use crate::channel::{Disconnected, EventReceiver};
use crate::event::{emitted, signal_of, EventSourceEvent, PlatformEvent};
use crate::handshake::{handed_over, EarlyWindowData, HandshakeCell};
use crate::shared::share;
use crate::swapchain::{transition, LifecycleSignal, SwapchainState};

verus! {

/// Why no application event could be produced.
#[derive(Clone, Copy, Debug, PartialEq, Eq, Structural)]
pub enum ReceiveError {
    /// The event-pump thread is gone: the render loop is to end.
    Disconnected,
    /// The application was resumed while a swapchain was live. This breaks the lifecycle
    /// contract; the swapchain is left as it was.
    UnbalancedResumed,
}

/// The render thread's end of the coordination core.
#[verifier::reject_recursive_types(R)]
pub struct EventSource<R, S> {
    event_recv: EventReceiver<PlatformEvent<R>>,
    early_window_data: HandshakeCell,
    swapchain: Option<Arc<S>>,
}

/// The lifecycle state in which `swapchain` is the current swapchain.
pub open spec fn state_of<S>(swapchain: Option<Arc<S>>) -> SwapchainState {
    match swapchain {
        Some(_) => SwapchainState::HasSwapchain,
        None => SwapchainState::NoSwapchain,
    }
}

/// Whether `event` can be handled while `swapchain` is the current swapchain: every
/// event can, but a resume while a swapchain is live.
pub open spec fn acceptable<R, S>(swapchain: Option<Arc<S>>, event: PlatformEvent<R>) -> bool {
    match signal_of(event) {
        Some(signal) => transition(state_of(swapchain), signal) is Some,
        None => true,
    }
}

/// Handling `event` with `before` as the current swapchain produces `out` and leaves
/// `after` as the current swapchain. A resume installs a swapchain where there was none,
/// a suspend removes the swapchain, and every other event leaves it alone.
pub open spec fn handled<R, S>(
    before: Option<Arc<S>>,
    event: PlatformEvent<R>,
    out: EventSourceEvent<R, S>,
    after: Option<Arc<S>>,
) -> bool {
    &&& acceptable(before, event)
    &&& out == emitted(event, before)
    &&& match signal_of(event) {
        Some(LifecycleSignal::Resumed) => after is Some,
        Some(LifecycleSignal::Suspended) => after is None,
        None => after == before,
    }
}

/// The result `out` and the swapchain `after` that follow when `received` came off the
/// channel while `before` was the current swapchain.
pub open spec fn dispatched<R, S>(
    before: Option<Arc<S>>,
    received: Result<PlatformEvent<R>, Disconnected>,
    out: Result<EventSourceEvent<R, S>, ReceiveError>,
    after: Option<Arc<S>>,
) -> bool {
    match received {
        Err(_) => out == Err::<EventSourceEvent<R, S>, ReceiveError>(ReceiveError::Disconnected)
            && after == before,
        Ok(event) => if acceptable(before, event) {
            out matches Ok(app_event) && handled(before, event, app_event, after)
        } else {
            out == Err::<EventSourceEvent<R, S>, ReceiveError>(ReceiveError::UnbalancedResumed)
                && after == before
        },
    }
}

/// Handling an event moves the lifecycle as the state machine says: by the transition
/// for the signal that the event announces, and not at all if it announces none.
pub proof fn lemma_handled_follows_transition<R, S>(
    before: Option<Arc<S>>,
    event: PlatformEvent<R>,
    out: EventSourceEvent<R, S>,
    after: Option<Arc<S>>,
)
    requires
        handled(before, event, out, after),
    ensures
        signal_of(event) matches Some(signal) ==> transition(state_of(before), signal) == Some(
            state_of(after),
        ),
        signal_of(event) is None ==> state_of(after) == state_of(before),
{
}

/// A resume that arrives while a swapchain is live is detected: it produces no
/// application event but the error `UnbalancedResumed`, and the live swapchain stays the
/// current one.
pub proof fn lemma_unbalanced_resume_is_refused<R, S>(
    before: Option<Arc<S>>,
    out: Result<EventSourceEvent<R, S>, ReceiveError>,
    after: Option<Arc<S>>,
)
    requires
        before is Some,
        dispatched(before, Ok::<PlatformEvent<R>, Disconnected>(PlatformEvent::Resumed), out, after),
    ensures
        out == Err::<EventSourceEvent<R, S>, ReceiveError>(ReceiveError::UnbalancedResumed),
        after == before,
{
}

/// An event is refused only if it is a resume and a swapchain is live; a disconnection
/// and a refusal leave the swapchain as it was.
pub proof fn lemma_dispatch_failures<R, S>(
    before: Option<Arc<S>>,
    received: Result<PlatformEvent<R>, Disconnected>,
    out: Result<EventSourceEvent<R, S>, ReceiveError>,
    after: Option<Arc<S>>,
)
    requires
        dispatched(before, received, out, after),
    ensures
        out is Err ==> after == before,
        out == Err::<EventSourceEvent<R, S>, ReceiveError>(ReceiveError::Disconnected)
            <==> received is Err,
        out == Err::<EventSourceEvent<R, S>, ReceiveError>(ReceiveError::UnbalancedResumed) <==> (
        received == Ok::<PlatformEvent<R>, Disconnected>(PlatformEvent::Resumed) && before is Some),
{
}

impl<R, S> EventSource<R, S> {
    /// An event source without a swapchain, reading events from `event_recv` and the
    /// window's data from `early_window_data`.
    pub fn new(
        event_recv: EventReceiver<PlatformEvent<R>>,
        early_window_data: HandshakeCell,
    ) -> (source: Self)
        ensures
            source.swapchain() is None,
            source.state() == SwapchainState::NoSwapchain,
            source.window_cell() == early_window_data.cell(),
    {
        EventSource { event_recv, early_window_data, swapchain: None }
    }

    /// The current swapchain.
    pub closed spec fn swapchain(&self) -> Option<Arc<S>> {
        self.swapchain
    }

    /// The handshake cell that the window's data are read from.
    pub closed spec fn window_cell(&self) -> once_cell::sync::OnceCell<EarlyWindowData> {
        self.early_window_data.cell()
    }

    /// The window's data as the event-pump thread hands them over: what every read of
    /// the handshake cell returns.
    pub open spec fn window_data(&self) -> EarlyWindowData {
        handed_over(self.window_cell())
    }

    /// The lifecycle state.
    pub open spec fn state(&self) -> SwapchainState {
        state_of(self.swapchain())
    }

    /// Whether `event` can be handled in the current state.
    pub open spec fn accepts(&self, event: PlatformEvent<R>) -> bool {
        acceptable(self.swapchain(), event)
    }

    /// The lifecycle state, as a value.
    pub fn current_state(&self) -> (state: SwapchainState)
        ensures
            state == self.state(),
    {
        match &self.swapchain {
            Some(_) => SwapchainState::HasSwapchain,
            None => SwapchainState::NoSwapchain,
        }
    }

    /// A shared reference to the current swapchain, if there is one.
    pub fn current_swapchain(&self) -> (swapchain: Option<Arc<S>>)
        ensures
            swapchain == self.swapchain(),
    {
        match &self.swapchain {
            Some(swapchain) => Some(share(swapchain)),
            None => None,
        }
    }

    /// Executable form of [`Self::accepts`].
    pub fn can_handle(&self, event: &PlatformEvent<R>) -> (ok: bool)
        ensures
            ok == self.accepts(*event),
    {
        match event.signal() {
            Some(signal) => self.current_state().after(signal).is_some(),
            None => true,
        }
    }

    /// Blocks until the window's data have been handed over, then returns the size the
    /// window was created with.
    pub fn early_window_size(&self) -> (size: (u32, u32))
        ensures
            size == self.window_data().window_size,
    {
        self.early_window_data.wait_and_read().window_size
    }

    /// Takes the next platform event off the channel, waiting while there is none.
    pub fn next_event(&self) -> (received: Result<PlatformEvent<R>, Disconnected>) {
        self.event_recv.recv()
    }

    /// Handles one platform event and produces the application event for it.
    ///
    /// A close request or the escape key ends the application. A frame tick asks for a
    /// frame on the current swapchain, which may be absent. A suspend destroys the
    /// swapchain. A resume waits for the window's data, has `create_swapchain` build a
    /// swapchain from them and keeps that one. Everything else, a resize too, is passed
    /// through: a resize shows at the next frame tick as a changed drawable size.
    ///
    /// `create_swapchain` is called for a resume and for nothing else.
    pub fn handle<F: FnOnce(&EarlyWindowData) -> Arc<S>>(
        &mut self,
        event: PlatformEvent<R>,
        create_swapchain: F,
    ) -> (out: EventSourceEvent<R, S>)
        requires
            old(self).accepts(event),
            event is Resumed ==> call_requires(create_swapchain, (&old(self).window_data(),)),
        ensures
            final(self).window_cell() == old(self).window_cell(),
            handled(old(self).swapchain(), event, out, final(self).swapchain()),
            signal_of(event) matches Some(signal) ==> Some(final(self).state()) == transition(
                old(self).state(),
                signal,
            ),
            signal_of(event) is None ==> final(self).state() == old(self).state(),
            event is Resumed ==> call_ensures(
                create_swapchain,
                (&old(self).window_data(),),
                final(self).swapchain()->0,
            ),
    {
        match event {
            PlatformEvent::Window { event: window_event, .. } => {
                if window_event.is_exit_request() {
                    EventSourceEvent::Terminate
                } else {
                    EventSourceEvent::WindowEvent(window_event)
                }
            },
            PlatformEvent::Suspended => {
                self.swapchain = None;
                EventSourceEvent::Event(PlatformEvent::Suspended)
            },
            PlatformEvent::Resumed => {
                let data = self.early_window_data.wait_and_read();
                let swapchain = create_swapchain(data);
                self.swapchain = Some(swapchain);
                EventSourceEvent::Event(PlatformEvent::Resumed)
            },
            PlatformEvent::AboutToWait => EventSourceEvent::Render(self.current_swapchain()),
            PlatformEvent::Other(raw) => EventSourceEvent::Event(PlatformEvent::Other(raw)),
        }
    }

    /// Handles one platform event if the current state accepts it. A resume while a
    /// swapchain is live is refused: the swapchain stays as it was and
    /// `create_swapchain` is not called.
    pub fn try_handle<F: FnOnce(&EarlyWindowData) -> Arc<S>>(
        &mut self,
        event: PlatformEvent<R>,
        create_swapchain: F,
    ) -> (out: Result<EventSourceEvent<R, S>, ReceiveError>)
        requires
            event is Resumed ==> call_requires(create_swapchain, (&old(self).window_data(),)),
        ensures
            final(self).window_cell() == old(self).window_cell(),
            dispatched(
                old(self).swapchain(),
                Ok::<PlatformEvent<R>, Disconnected>(event),
                out,
                final(self).swapchain(),
            ),
            out is Ok <==> old(self).accepts(event),
            out is Ok && event is Resumed ==> call_ensures(
                create_swapchain,
                (&old(self).window_data(),),
                final(self).swapchain()->0,
            ),
    {
        if self.can_handle(&event) {
            Ok(self.handle(event, create_swapchain))
        } else {
            Err(ReceiveError::UnbalancedResumed)
        }
    }

    /// Turns what came off the channel into the result of `recv`: a disconnection is
    /// reported as such, an event is handled as by [`Self::try_handle`].
    pub fn dispatch<F: FnOnce(&EarlyWindowData) -> Arc<S>>(
        &mut self,
        received: Result<PlatformEvent<R>, Disconnected>,
        create_swapchain: F,
    ) -> (out: Result<EventSourceEvent<R, S>, ReceiveError>)
        requires
            call_requires(create_swapchain, (&old(self).window_data(),)),
        ensures
            final(self).window_cell() == old(self).window_cell(),
            dispatched(old(self).swapchain(), received, out, final(self).swapchain()),
            old(self).swapchain() is None && final(self).swapchain() is Some ==> call_ensures(
                create_swapchain,
                (&old(self).window_data(),),
                final(self).swapchain()->0,
            ),
    {
        match received {
            Ok(event) => self.try_handle(event, create_swapchain),
            Err(_) => Err(ReceiveError::Disconnected),
        }
    }

    /// Waits for the next platform event and produces the application event for it.
    ///
    /// Which event arrives, or whether the channel turns out to be disconnected, depends
    /// on the event-pump thread; the result is the one that [`Self::dispatch`] gives for
    /// what arrived. A swapchain that appears is one that `create_swapchain` built from
    /// the window's data.
    pub fn recv<F: FnOnce(&EarlyWindowData) -> Arc<S>>(&mut self, create_swapchain: F) -> (out:
        Result<EventSourceEvent<R, S>, ReceiveError>)
        requires
            call_requires(create_swapchain, (&old(self).window_data(),)),
        ensures
            final(self).window_cell() == old(self).window_cell(),
            exists|received: Result<PlatformEvent<R>, Disconnected>|
                dispatched(old(self).swapchain(), received, out, final(self).swapchain()),
            out is Err ==> final(self).swapchain() == old(self).swapchain(),
            out == Err::<EventSourceEvent<R, S>, ReceiveError>(ReceiveError::UnbalancedResumed)
                ==> old(self).swapchain() is Some,
            old(self).swapchain() is None && final(self).swapchain() is Some ==> call_ensures(
                create_swapchain,
                (&old(self).window_data(),),
                final(self).swapchain()->0,
            ),
    {
        let received = self.next_event();
        self.dispatch(received, create_swapchain)
    }
}

} // verus!
