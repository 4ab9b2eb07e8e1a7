use std::sync::Arc;

use render_loop::event::{EventSourceEvent, PlatformEvent, WindowEvent};
use render_loop::event_pump::{ControlFlow, PumpVerdict};
use render_loop::event_source::{EventSource, ReceiveError};
use render_loop::handshake::{AlreadySet, EarlyWindowData, HandshakeCell};
use render_loop::render_loop::{panic_message, RenderLoopCreateDesc, RenderLoopSetup};
use render_loop::swapchain::SwapchainState;

#[derive(Debug, PartialEq, Eq)]
struct Surface(u32, u32);

type Raw = u8;

const DESC: RenderLoopCreateDesc = RenderLoopCreateDesc { window_title: "Test window", window_size: (1280, 720) };

fn build(data: &EarlyWindowData) -> Arc<Surface> {
    Arc::new(Surface(data.window_size.0, data.window_size.1))
}

fn connect() -> (RenderLoopSetup<Raw>, EventSource<Raw, Surface>) {
    RenderLoopSetup::connect(DESC)
}

#[test]
fn setup_keeps_the_description() {
    let (setup, source) = connect();
    assert_eq!(setup.window_size(), (1280, 720));
    assert_eq!(setup.window_title(), "Test window");
    assert_eq!(source.current_state(), SwapchainState::NoSwapchain);
}

#[test]
fn opening_the_window_hands_its_data_to_the_render_thread() {
    let (setup, source) = connect();
    let pump = setup.open_window(9, None).unwrap();
    assert_eq!(pump.owned_window(), 9);
    assert!(pump.is_visible());
    assert_eq!(pump.control_flow(), ControlFlow::Poll);
    assert_eq!(source.early_window_size(), (1280, 720));
}

#[test]
fn events_flow_from_the_pump_to_the_source() {
    let (setup, mut source) = connect();
    let mut pump = setup.open_window(9, None).unwrap();

    let mut out = Vec::new();
    let events: Vec<PlatformEvent<Raw>> = vec![
        PlatformEvent::Resumed,
        PlatformEvent::Window { window_id: 9, event: WindowEvent::ScaleFactorChanged },
        PlatformEvent::AboutToWait,
        PlatformEvent::Window { window_id: 9, event: WindowEvent::CloseRequested },
    ];
    let mut forwarded = 0;
    for event in events {
        assert_eq!(pump.try_observe(&event), Ok(ControlFlow::Poll));
        let dropped = matches!(event, PlatformEvent::Window { event: WindowEvent::ScaleFactorChanged, .. });
        assert_eq!(pump.forward(event), PumpVerdict::Continue);
        if !dropped {
            forwarded += 1;
            out.push(source.recv(build).unwrap());
        }
    }
    assert_eq!(forwarded, 3);
    assert_eq!(out[0], EventSourceEvent::Event(PlatformEvent::Resumed));
    assert_eq!(out[1], EventSourceEvent::Render(Some(Arc::new(Surface(1280, 720)))));
    assert_eq!(out[2], EventSourceEvent::Terminate);

    drop(pump);
    assert_eq!(source.recv(build), Err(ReceiveError::Disconnected));
}

#[test]
fn pump_exits_when_the_source_is_dropped() {
    let (setup, source) = connect();
    let pump = setup.open_window(1, None).unwrap();
    drop(source);
    assert_eq!(pump.forward(PlatformEvent::AboutToWait), PumpVerdict::Exit);
}

#[test]
fn early_window_size_is_the_size_of_the_description() {
    for size in [(1u32, 1u32), (640, 480), (1280, 720), (u32::MAX, 0)] {
        let desc = RenderLoopCreateDesc { window_title: "", window_size: size };
        let (setup, source): (RenderLoopSetup<Raw>, EventSource<Raw, Surface>) =
            RenderLoopSetup::connect(desc);
        assert!(setup.open_window(3, None).is_ok());
        assert_eq!(source.early_window_size(), size);
    }
}

#[test]
fn window_data_written_twice_are_given_back() {
    let mut cell = HandshakeCell::new();
    assert!(cell.write(EarlyWindowData { window_size: (1, 2), winit_window: None }).is_ok());
    match cell.write(EarlyWindowData { window_size: (3, 4), winit_window: None }) {
        Err(AlreadySet(refused)) => assert_eq!(refused.window_size, (3, 4)),
        Ok(()) => panic!("second write must fail"),
    }
}

#[test]
fn panic_message_is_the_payload_text_or_a_fixed_notice() {
    assert_eq!(panic_message(Some("index out of bounds")), "index out of bounds");
    assert_eq!(panic_message(Some("")), "");
    assert_eq!(panic_message(None), "Unknown boxed error type");
}
