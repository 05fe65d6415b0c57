//! A diagnostic bridge for code running inside a sandboxed guest runtime
//! that has no console of its own: every piece of debug text is handed to
//! the embedding host through a single imported write function.
//!
//! The crate verifies the three layers of that bridge. The transmission
//! channel records, in order, each byte buffer handed to the host import;
//! the text logger encodes a string as UTF-8 bytes with no added framing;
//! the diagnostics layer renders inspection lines and crash reports, and
//! proves that inspecting an expression never changes its value and that
//! installing the crash handler many times replaces the underlying hook
//! exactly once.
//!
//! The host import itself, the runtime's panic hook, and the variadic
//! call-site macro live outside the verified library, in the surrounding
//! application crate; they hand this library plain values and forward the
//! bytes it renders.

mod channel;
mod forwarder;
mod inspect;
mod render;

pub use channel::Channel;
pub use channel::log;
pub use channel::log_bytes;
pub use forwarder::PanicForwarder;
pub use forwarder::lemma_register_idempotent;
pub use forwarder::lemma_register_once_from_start;
pub use forwarder::on_fatal;
pub use forwarder::register_panic;
pub use forwarder::register_step;
pub use forwarder::register_steps;
pub use inspect::inspect;
pub use inspect::inspect2;
pub use inspect::inspect3;
pub use inspect::inspect_location;
pub use inspect::inspect_message;
pub use inspect::inspect_rendered;
pub use render::decimal_digits;
pub use render::digit_char;
pub use render::fatal_text;
pub use render::inspect_text;
pub use render::location_text;
pub use render::render_fatal_line;
pub use render::render_inspect_line;
pub use render::render_location;
