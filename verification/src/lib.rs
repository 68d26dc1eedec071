//! Logic of a USB joystick adapter for RC transmitters: per-channel
//! calibration of the analog sticks, decoding of the switches, the HID
//! descriptors and control requests, the report layout on the wire and the
//! steps of the periodic tasks.

pub mod inputs;
pub mod acquisition;
pub mod hid;
pub mod tasks;
pub mod types;
