use vstd::prelude::*;
use crate::port::Port;

verus! {

/// Address of the direction register of port B.
pub const DDRB: u16 = 0x24;

/// Address of the data register of port B.
pub const PORTB: u16 = 0x25;

/// Address of the input register of port B.
pub const PINB: u16 = 0x23;

/// Whether `port` is bound to the three registers of port B.
pub open spec fn binds(port: Port) -> bool {
    &&& port.direction_address() == DDRB
    &&& port.data_address() == PORTB
    &&& port.input_address() == PINB
}

/// A handle to port B. Every call gives a handle to the same three
/// registers.
pub fn init() -> (port: Port)
    ensures
        binds(port),
        port.wf(),
{
    Port::new(DDRB, PORTB, PINB)
}

} // verus!
