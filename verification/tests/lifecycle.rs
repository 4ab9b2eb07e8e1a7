use render_loop::swapchain::{DrawableSize, LifecycleSignal, SwapchainState};

use LifecycleSignal::{Resumed, Suspended};
use SwapchainState::{HasSwapchain, NoSwapchain};

#[test]
fn lifecycle_starts_without_swapchain() {
    assert_eq!(SwapchainState::initial(), NoSwapchain);
}

#[test]
fn resume_without_swapchain_creates_one() {
    assert_eq!(NoSwapchain.after(Resumed), Some(HasSwapchain));
}

#[test]
fn suspend_destroys_the_swapchain() {
    assert_eq!(HasSwapchain.after(Suspended), Some(NoSwapchain));
}

#[test]
fn suspend_without_swapchain_changes_nothing() {
    assert_eq!(NoSwapchain.after(Suspended), Some(NoSwapchain));
}

#[test]
fn resume_with_live_swapchain_breaks_the_contract() {
    assert_eq!(HasSwapchain.after(Resumed), None);
}

#[test]
fn no_signal_leaves_the_initial_state() {
    let signals: Vec<LifecycleSignal> = Vec::new();
    assert_eq!(NoSwapchain.after_all(&signals), Some(NoSwapchain));
}

#[test]
fn alternating_signals_end_in_the_state_of_the_last_one() {
    assert_eq!(NoSwapchain.after_all(&vec![Resumed]), Some(HasSwapchain));
    assert_eq!(NoSwapchain.after_all(&vec![Suspended]), Some(NoSwapchain));
    assert_eq!(NoSwapchain.after_all(&vec![Resumed, Suspended]), Some(NoSwapchain));
    assert_eq!(NoSwapchain.after_all(&vec![Suspended, Resumed]), Some(HasSwapchain));
    assert_eq!(
        NoSwapchain.after_all(&vec![Resumed, Suspended, Resumed, Suspended, Resumed]),
        Some(HasSwapchain)
    );
    assert_eq!(
        NoSwapchain.after_all(&vec![Suspended, Resumed, Suspended, Resumed, Suspended]),
        Some(NoSwapchain)
    );
}

#[test]
fn every_alternating_sequence_up_to_length_twelve_rests_as_expected() {
    for first in [Suspended, Resumed] {
        for len in 0usize..=12 {
            let mut signals = Vec::new();
            let mut next = first;
            for _ in 0..len {
                signals.push(next);
                next = if next == Resumed { Suspended } else { Resumed };
            }
            let expected = match signals.last() {
                Some(Resumed) => HasSwapchain,
                _ => NoSwapchain,
            };
            assert_eq!(NoSwapchain.after_all(&signals), Some(expected));
        }
    }
}

#[test]
fn repeated_resume_is_detected_in_a_sequence() {
    assert_eq!(NoSwapchain.after_all(&vec![Resumed, Resumed]), None);
    assert_eq!(NoSwapchain.after_all(&vec![Resumed, Resumed, Suspended]), None);
    assert_eq!(HasSwapchain.after_all(&vec![Suspended, Resumed, Resumed, Suspended, Resumed]), None);
}

#[test]
fn repeated_suspend_is_harmless() {
    assert_eq!(NoSwapchain.after_all(&vec![Suspended, Suspended]), Some(NoSwapchain));
    assert_eq!(HasSwapchain.after_all(&vec![Suspended, Suspended, Resumed]), Some(HasSwapchain));
}

#[test]
fn drawable_size_starts_from_the_window_size() {
    let size = DrawableSize::new((1280, 720));
    assert_eq!(size.size(), (1280, 720));
}

#[test]
fn unchanged_drawable_size_is_no_resize() {
    let mut size = DrawableSize::new((1280, 720));
    assert_eq!(size.update((1280, 720)), None);
    assert_eq!(size.size(), (1280, 720));
}

#[test]
fn changed_drawable_size_is_adopted_and_reported_once() {
    let mut size = DrawableSize::new((1280, 720));
    assert_eq!(size.update((1920, 1080)), Some((1280, 720)));
    assert_eq!(size.size(), (1920, 1080));
    assert_eq!(size.update((1920, 1080)), None);
    assert_eq!(size.update((1920, 1081)), Some((1920, 1080)));
    assert_eq!(size.update((0, 1081)), Some((1920, 1081)));
    assert_eq!(size.size(), (0, 1081));
}
