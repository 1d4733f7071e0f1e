//! Verified core of an XRT-style accelerator host layer: device-buffer
//! lifecycle, host/device synchronization, the closed argument-type system
//! used to validate kernel calls, and the staged device-manager builder.
//!
//! The native driver is represented by an in-crate model: a buffer carries
//! its host-visible and device-resident contents, and a device carries the
//! images that can be loaded by path.  Every operation checks handle
//! presence before acting, and every contract states exactly which error an
//! operation returns and what state it leaves behind.

pub mod buffer;
pub mod common;
pub mod device;
pub mod device_manager;
pub mod error;
pub mod kernel;
pub mod xclbin;
