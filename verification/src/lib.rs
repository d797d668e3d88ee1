//! A verified core for a BLE HID mouse: the report descriptor that declares
//! the device's input shape to the host, the codec that lays one input report
//! out on the wire, the session that owns the report state, and the motion
//! driver that decides what to send each cycle.

pub mod config;
pub mod descriptor;
pub mod driver;
pub mod report;
pub mod session;
