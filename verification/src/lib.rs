//! Cross-thread coordination between a platform event-pump thread and a render thread.
//!
//! The event-pump thread owns the window and the platform event loop. It hands the
//! window over through a write-once [`handshake`] cell and forwards platform events
//! through a single-slot [`channel`]. The render thread turns each platform event into
//! one application event and keeps the [`swapchain`] in step with the application's
//! visibility.

pub mod channel;
pub mod event;
pub mod event_pump;
pub mod event_source;
pub mod handshake;
pub mod render_loop;
mod shared;
pub mod swapchain;
