//! Host-side controller core for a kernel-mode input-injection driver.
//!
//! The crate covers the driver lifecycle and the command-channel protocol:
//! a service bootstrapper that brings the driver service to the running
//! state, a codec for the fixed-layout key-event command, a channel that
//! owns the driver's control endpoint and releases it exactly once, and a
//! script host that lets an embedded Lua script fire key events through a
//! registered callback.
//!
//! The operating-system service manager and the device endpoint stand
//! behind the `ServiceManager` and `DeviceBackend` traits, so the core
//! logic is verified once and exercised against in-crate fakes; a real
//! backend supplies the operating-system calls outside this crate.

pub mod bootstrap;
pub mod channel;
pub mod codec;
pub mod host;

pub use codec::KeyEvent;
