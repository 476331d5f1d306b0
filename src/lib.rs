//! A verified core for a virtual input device built on the kernel's uinput
//! interface: the event record format, the capability registration plan, the
//! creation session, the lifecycle of a created device, and the frame
//! semantics that a listener on the device node observes.

pub mod event;
pub mod error;
pub mod caps;
pub mod paths;
pub mod device;
pub mod stream;
