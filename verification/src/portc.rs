use vstd::prelude::*;
use crate::port::Port;

verus! {

/// Address of the direction register of port C.
pub const DDRC: u16 = 0x27;

/// Address of the data register of port C.
pub const PORTC: u16 = 0x28;

/// Address of the input register of port C.
pub const PINC: u16 = 0x26;

/// Whether `port` is bound to the three registers of port C.
pub open spec fn binds(port: Port) -> bool {
    &&& port.direction_address() == DDRC
    &&& port.data_address() == PORTC
    &&& port.input_address() == PINC
}

/// A handle to port C. Every call gives a handle to the same three
/// registers.
pub fn init() -> (port: Port)
    ensures
        binds(port),
        port.wf(),
{
    Port::new(DDRC, PORTC, PINC)
}

} // verus!
