//! A typed event-dispatch library: a driver owns an ordered list of clients
//! and broadcasts each emitted event to all of them synchronously, in
//! registration order.

pub mod client;
pub mod driver;
pub mod event;

pub use client::Client;
pub use client::HandlerError;
pub use client::RecordingClient;
pub use client::StubClient;
pub use driver::Driver;
pub use event::Event;
pub use event::EventA;
pub use event::EventB;
