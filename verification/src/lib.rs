//! Core of a matrix-keyboard firmware: HID key codes and boot-protocol
//! reports, raw pressed-key bitmaps, temporal debouncing, and a layered
//! layout engine with hold-tap disambiguation.

pub mod key_code;
pub mod report;
pub mod matrix;
pub mod debounce;
pub mod layout;
pub mod keyboard;
