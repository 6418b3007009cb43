//! Widgets built on the runtime: each has a model, an update function and a
//! view.

pub mod paginator;
pub mod spinner;
pub mod textinput;
pub mod viewport;
