//! Frame codec, register map and host-side decision logic for the ST3215
//! serial bus servo (half-duplex RS485).
pub mod servo_protocol;
pub mod registers;
pub mod commands;
pub mod datasheet;
