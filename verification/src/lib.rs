//! A USB/IP client library: the USB/IP wire format and client state, the
//! choice of the device to attach, and the decisions of a virtual USB host
//! controller that attaches a remote device to the local system.

pub mod wire;
pub mod usbip;
pub mod attach;
pub mod device;
pub mod endpoint;
pub mod controller;
