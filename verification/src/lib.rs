//! GPIO ports of an 8-bit microcontroller, over a simulated data space.
//!
//! A port has three registers of eight bits each: direction, data and input.
//! `Port` sets and reads single pins in them; `RegisterFile` holds the bytes;
//! `bits` is the arithmetic of one bit in a byte; `laws` states what holds
//! across operations and across ports.

pub mod bits;
pub mod delay;
pub mod fault;
pub mod laws;
pub mod port;
pub mod portb;
pub mod portc;
pub mod portd;
pub mod registers;

pub use crate::port::Port;
