//! An Elm-style terminal UI runtime: state is a pure function of a stream of
//! messages, and every frame is painted from the current state.
//!
//! The library decides; whoever drives it waits, reads and writes. Every
//! step of the runtime hands back the bytes that go to the terminal.

pub mod channels;
pub mod color;
pub mod commands;
pub mod components;
pub mod heartbeat;
pub mod input;
pub mod render_channel;
pub mod renderer;
pub mod runtime;
pub mod store;
pub mod text;

pub use channels::{Channel, ChannelSender};
pub use color::{convert_hex_rgb, ColorError, Rgb};
pub use heartbeat::Heartbeat;
pub use input::{InputEvent, Key, MouseButton};
pub use render_channel::{NextFrame, RenderChannel};
pub use renderer::{RenderMsg, Renderer};
pub use runtime::{Phase, Runtime};
pub use store::Store;
