//! Frame-acquisition and window-targeting core for a screen-capture bot.
//!
//! The library verifies the logic of the capture pipeline: locating the
//! target window in an inventory, converting raw BGRA frames to RGBA,
//! publishing the newest frame through a lock-protected single-slot store,
//! driving the capture-session lifecycle, and queueing leveled log events.
//! The operating-system primitives themselves (window enumeration, the
//! compositor stream, synthetic input) are consumed by the surrounding
//! application, which feeds their results into these verified functions.

pub mod bot_engine;
pub mod frame_store;
pub mod input_manager;
pub mod locator;
pub mod log_channel;
pub mod pixel;
pub mod session;
pub mod vision_engine;
