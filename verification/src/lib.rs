//! A one-shot initialization registry.
//!
//! Independent call sites contribute [`BootBox`] entries to a [`Registry`];
//! the host application later drains the registry exactly once through
//! [`boot`], and may call [`assert_booted`] to confirm that the boot phase
//! already ran. Each entry's callback is guarded by a take-once slot, so a
//! callback is handed out for invocation at most once over the life of the
//! registry, however often the drain is attempted.

mod guard;
pub mod registry;
pub mod controller;

pub use controller::assert_booted;
pub use controller::boot;
pub use controller::BootError;
pub use controller::BootState;
pub use registry::BootBox;
pub use registry::Registry;
