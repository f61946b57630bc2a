//! A Model-Update-View runtime for retained-mode widget toolkits.
//!
//! An application supplies a [`Sandbox`](sandbox::Sandbox): how its state is
//! built, captioned, shown and changed by one message. The
//! [`Runtime`](runtime::Runtime) owns that state, queues the messages that
//! widget callbacks and background workers produce, applies them one at a
//! time and keeps the visible tree and caption in step with the state. All
//! toolkit work is left to the embedding program, which performs the actions
//! the runtime returns.

pub mod channel;
pub mod codec;
pub mod color;
pub mod lexer;
pub mod models;
pub mod runtime;
pub mod sandbox;
pub mod settings;
pub mod text;
pub mod theme;
pub mod window;

pub use crate::runtime::Runtime;
pub use crate::sandbox::Sandbox;
pub use crate::settings::Settings;
