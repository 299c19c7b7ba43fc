//! A hardware-abstraction layer between a bootstrap environment and the
//! kernel it hands control to: capability interfaces for a character console
//! and a block-addressable storage device, the platform-description record
//! passed across the boot-to-kernel boundary, memory-backed reference
//! devices, and the bootstrap sequence that self-tests the devices and
//! performs the hand-off.

pub mod boot;
pub mod devices;
pub mod hal;
