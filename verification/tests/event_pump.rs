use render_loop::channel::{event_channel, Disconnected, EventReceiver};
use render_loop::event::{Key, PlatformEvent, WindowEvent};
use render_loop::event_pump::{is_forwarded, verdict, ControlFlow, EventPump, ForeignWindow, PumpVerdict};

type Raw = u32;
type Event = PlatformEvent<Raw>;

const WINDOW: u64 = 42;

fn pump() -> (EventPump<Raw>, EventReceiver<Event>) {
    let (sender, receiver) = event_channel();
    (EventPump::new(WINDOW, sender), receiver)
}

fn window(event: WindowEvent<Raw>) -> Event {
    PlatformEvent::Window { window_id: WINDOW, event }
}

#[test]
fn pump_starts_visible_and_polling() {
    let (pump, _receiver) = pump();
    assert!(pump.is_visible());
    assert_eq!(pump.owned_window(), WINDOW);
    assert_eq!(pump.control_flow(), ControlFlow::Poll);
}

#[test]
fn suspend_pauses_and_resume_runs() {
    let (mut pump, _receiver) = pump();
    assert_eq!(pump.observe(&PlatformEvent::Suspended), ControlFlow::Wait);
    assert!(!pump.is_visible());
    assert_eq!(pump.observe(&PlatformEvent::AboutToWait), ControlFlow::Wait);
    assert_eq!(pump.observe(&window(WindowEvent::CloseRequested)), ControlFlow::Wait);
    assert_eq!(pump.observe(&PlatformEvent::Suspended), ControlFlow::Wait);
    assert_eq!(pump.observe(&PlatformEvent::Resumed), ControlFlow::Poll);
    assert!(pump.is_visible());
    assert_eq!(pump.observe(&PlatformEvent::Other(3)), ControlFlow::Poll);
    assert_eq!(pump.observe(&PlatformEvent::Resumed), ControlFlow::Poll);
}

#[test]
fn event_for_another_window_is_refused() {
    let (mut pump, _receiver) = pump();
    let foreign = PlatformEvent::Window { window_id: WINDOW + 1, event: WindowEvent::CloseRequested };
    assert_eq!(pump.check_window(&foreign), Err(ForeignWindow { window_id: WINDOW + 1 }));
    assert_eq!(pump.try_observe(&foreign), Err(ForeignWindow { window_id: WINDOW + 1 }));
    assert!(pump.is_visible());
    assert_eq!(pump.check_window(&window(WindowEvent::CloseRequested)), Ok(()));
    assert_eq!(pump.check_window(&PlatformEvent::Suspended), Ok(()));
    assert_eq!(pump.try_observe(&PlatformEvent::Suspended), Ok(ControlFlow::Wait));
    assert_eq!(pump.try_observe(&foreign), Err(ForeignWindow { window_id: WINDOW + 1 }));
    assert!(!pump.is_visible());
}

#[test]
fn scale_factor_change_is_the_only_event_dropped() {
    assert!(!is_forwarded(&window(WindowEvent::ScaleFactorChanged)));
    assert!(is_forwarded(&window(WindowEvent::Resized { width: 1, height: 2 })));
    assert!(is_forwarded(&window(WindowEvent::CloseRequested)));
    assert!(is_forwarded(&window(WindowEvent::KeyboardInput { key: Key::Escape, raw: 1 })));
    assert!(is_forwarded(&window(WindowEvent::Other(5))));
    assert!(is_forwarded(&Event::Suspended));
    assert!(is_forwarded(&Event::Resumed));
    assert!(is_forwarded(&Event::AboutToWait));
    assert!(is_forwarded(&Event::Other(9)));
}

#[test]
fn failed_send_asks_for_exit() {
    assert_eq!(verdict(Ok(())), PumpVerdict::Continue);
    assert_eq!(verdict(Err(Disconnected)), PumpVerdict::Exit);
}

#[test]
fn forwarded_events_reach_the_consumer_in_order() {
    let (pump, receiver) = pump();
    let events = vec![
        PlatformEvent::Resumed,
        window(WindowEvent::Resized { width: 800, height: 600 }),
        PlatformEvent::AboutToWait,
        PlatformEvent::Other(11),
        window(WindowEvent::KeyboardInput { key: Key::Other, raw: 65 }),
        PlatformEvent::Suspended,
    ];
    for event in events {
        let copy = match &event {
            PlatformEvent::Window { window_id, event: WindowEvent::Resized { width, height } } => {
                PlatformEvent::Window { window_id: *window_id, event: WindowEvent::Resized { width: *width, height: *height } }
            }
            PlatformEvent::Window { window_id, event: WindowEvent::KeyboardInput { key, raw } } => {
                PlatformEvent::Window { window_id: *window_id, event: WindowEvent::KeyboardInput { key: *key, raw: *raw } }
            }
            PlatformEvent::Resumed => PlatformEvent::Resumed,
            PlatformEvent::Suspended => PlatformEvent::Suspended,
            PlatformEvent::AboutToWait => PlatformEvent::AboutToWait,
            PlatformEvent::Other(raw) => PlatformEvent::Other(*raw),
            _ => unreachable!(),
        };
        assert_eq!(pump.forward(event), PumpVerdict::Continue);
        assert_eq!(receiver.recv(), Ok(copy));
    }
}

#[test]
fn dropped_event_is_not_sent() {
    let (pump, receiver) = pump();
    assert_eq!(pump.forward(window(WindowEvent::ScaleFactorChanged)), PumpVerdict::Continue);
    assert_eq!(pump.forward(PlatformEvent::AboutToWait), PumpVerdict::Continue);
    assert_eq!(receiver.recv(), Ok(PlatformEvent::AboutToWait));
    drop(pump);
    assert_eq!(receiver.recv(), Err(Disconnected));
}

#[test]
fn pump_asks_for_exit_once_the_consumer_is_gone() {
    let (mut pump, receiver) = pump();
    assert_eq!(pump.try_observe(&PlatformEvent::Resumed), Ok(ControlFlow::Poll));
    assert_eq!(pump.forward(PlatformEvent::Resumed), PumpVerdict::Continue);
    assert_eq!(receiver.recv(), Ok(PlatformEvent::Resumed));
    assert_eq!(pump.forward(PlatformEvent::AboutToWait), PumpVerdict::Continue);
    assert_eq!(receiver.recv(), Ok(PlatformEvent::AboutToWait));
    drop(receiver);
    assert_eq!(pump.forward(PlatformEvent::AboutToWait), PumpVerdict::Exit);
    assert_eq!(pump.forward(PlatformEvent::Suspended), PumpVerdict::Exit);
}

#[test]
fn dropped_event_never_asks_for_exit() {
    let (pump, receiver) = pump();
    drop(receiver);
    assert_eq!(pump.forward(window(WindowEvent::ScaleFactorChanged)), PumpVerdict::Continue);
    assert_eq!(pump.forward(window(WindowEvent::CloseRequested)), PumpVerdict::Exit);
}
