//! A verified core for a TUN/TAP virtual network interface.
//!
//! The crate builds the fixed-layout request records that the kernel's
//! device-control calls expect, validates interface names and subnet-mask
//! prefixes before anything is sent, and decodes raw IP datagrams read from
//! the device into typed IPv4 or IPv6 packets. Opening the device, the
//! control socket, and the control calls themselves are left to the caller;
//! everything that can be stated and proved about the bytes lives here.

pub mod consts;
pub mod error;
pub mod packet;
pub mod settings;
pub mod tun;
