//! What the emulator takes from the outside world.

pub mod hid;
