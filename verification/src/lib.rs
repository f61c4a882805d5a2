//! Verified core of an arcade-controller firmware that presents itself to a
//! console as a licensed gamepad: the input model, the HID report codec, the
//! HID class adapter, the challenge/response authentication state machine
//! with its chunked link layer, the signature and key layouts, and the
//! fixed-block allocator that backs the signing primitive.

pub mod allocator;
pub mod auth;
pub mod bytes;
pub mod crc32;
pub mod device;
pub mod dfu;
pub mod ds4auth;
pub mod hid;
pub mod input;
pub mod link;
pub mod ps4;
