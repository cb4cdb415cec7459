use vstd::prelude::*;
use crate::port::Port;

verus! {

/// Address of the direction register of port D.
pub const DDRD: u16 = 0x2a;

/// Address of the data register of port D.
pub const PORTD: u16 = 0x2b;

/// Address of the input register of port D.
pub const PIND: u16 = 0x29;

/// Whether `port` is bound to the three registers of port D.
pub open spec fn binds(port: Port) -> bool {
    &&& port.direction_address() == DDRD
    &&& port.data_address() == PORTD
    &&& port.input_address() == PIND
}

/// A handle to port D. Every call gives a handle to the same three
/// registers.
pub fn init() -> (port: Port)
    ensures
        binds(port),
        port.wf(),
{
    Port::new(DDRD, PORTD, PIND)
}

} // verus!
