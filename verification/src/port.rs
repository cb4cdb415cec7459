use vstd::prelude::*;
use crate::bits::{assign_bit, bit, bits, test_bit, with_bit};
use crate::registers::{spans_address_space, RegisterFile};

verus! {

/// One GPIO port: the addresses of its direction, data and input registers.
///
/// Each register holds eight bits, one for each pin of the port, so pins are
/// numbered 0 to 7 and the operations ask for such a number. Whoever holds a
/// `Port` drives that port; nothing stops a second holder of the same
/// addresses from driving it too, so a program keeps one holder for each port.
pub struct Port {
    ddr: u16,
    port: u16,
    pin: u16,
}

impl Port {
    /// Address of the direction register.
    pub closed spec fn direction_address(self) -> u16 {
        self.ddr
    }

    /// Address of the data register.
    pub closed spec fn data_address(self) -> u16 {
        self.port
    }

    /// Address of the input register.
    pub closed spec fn input_address(self) -> u16 {
        self.pin
    }

    /// The three registers lie at three different addresses.
    #[verifier::type_invariant]
    pub open spec fn wf(self) -> bool {
        &&& self.direction_address() != self.data_address()
        &&& self.direction_address() != self.input_address()
        &&& self.data_address() != self.input_address()
    }

    /// Whether `address` is one of this port's three registers.
    pub open spec fn owns(self, address: u16) -> bool {
        ||| address == self.direction_address()
        ||| address == self.data_address()
        ||| address == self.input_address()
    }

    /// No register of `self` is a register of `other`.
    pub open spec fn disjoint(self, other: Port) -> bool {
        forall|address: u16| !(self.owns(address) && other.owns(address))
    }

    /// The direction byte of this port in `regs`.
    pub open spec fn direction(self, regs: Seq<u8>) -> u8 {
        regs[self.direction_address() as int]
    }

    /// The data byte of this port in `regs`.
    pub open spec fn data(self, regs: Seq<u8>) -> u8 {
        regs[self.data_address() as int]
    }

    /// The input byte of this port in `regs`.
    pub open spec fn input(self, regs: Seq<u8>) -> u8 {
        regs[self.input_address() as int]
    }

    /// `regs` after `pin` was made an output (`is_output`) or an input.
    pub open spec fn with_pin_mode(self, regs: Seq<u8>, pin: u8, is_output: bool) -> Seq<u8>
        recommends
            pin < 8,
    {
        regs.update(
            self.direction_address() as int,
            with_bit(self.direction(regs), pin, is_output),
        )
    }

    /// `regs` after `pin` was driven high (`is_high`) or low.
    pub open spec fn with_pin_state(self, regs: Seq<u8>, pin: u8, is_high: bool) -> Seq<u8>
        recommends
            pin < 8,
    {
        regs.update(self.data_address() as int, with_bit(self.data(regs), pin, is_high))
    }

    /// The level that `regs` shows on `pin`.
    pub open spec fn pin_level(self, regs: Seq<u8>, pin: u8) -> bool {
        bit(self.input(regs), pin)
    }

    /// Binds a port to its three register addresses. The caller affirms that
    /// they are the three distinct registers of one port of the device. No
    /// register is touched.
    pub fn new(ddr_addr: u16, port_addr: u16, pin_addr: u16) -> (port: Port)
        requires
            ddr_addr != port_addr,
            ddr_addr != pin_addr,
            port_addr != pin_addr,
        ensures
            port.direction_address() == ddr_addr,
            port.data_address() == port_addr,
            port.input_address() == pin_addr,
            port.wf(),
    {
        Port { ddr: ddr_addr, port: port_addr, pin: pin_addr }
    }

    /// Makes `pin` an output (`is_output`) or an input: reads the direction
    /// register, changes that one bit and writes the byte back. Nothing else
    /// in `regs` changes.
    pub fn set_pin_mode(&mut self, regs: &mut RegisterFile, pin: u8, is_output: bool)
        requires
            pin < 8,
        ensures
            *final(self) == *old(self),
            spans_address_space(final(regs)@),
            final(regs)@ == old(self).with_pin_mode(old(regs)@, pin, is_output),
            bits(old(self).direction(final(regs)@)) == bits(
                old(self).direction(old(regs)@),
            ).update(pin as int, is_output),
            old(self).data(final(regs)@) == old(self).data(old(regs)@),
            old(self).input(final(regs)@) == old(self).input(old(regs)@),
            forall|address: u16|
                address != old(self).direction_address() ==> final(regs)@[address as int] == old(
                    regs,
                )@[address as int],
    {
        proof {
            use_type_invariant(&*self);
        }
        let current = regs.read(self.ddr);
        regs.write(self.ddr, assign_bit(current, pin, is_output));
    }

    /// Drives `pin` high (`is_high`) or low: reads the data register, changes
    /// that one bit and writes the byte back. Nothing else in `regs` changes.
    /// On a pin that is an input the same bit switches its pull-up; the
    /// operation does not tell the two apart.
    pub fn set_pin_state(&mut self, regs: &mut RegisterFile, pin: u8, is_high: bool)
        requires
            pin < 8,
        ensures
            *final(self) == *old(self),
            spans_address_space(final(regs)@),
            final(regs)@ == old(self).with_pin_state(old(regs)@, pin, is_high),
            bits(old(self).data(final(regs)@)) == bits(old(self).data(old(regs)@)).update(
                pin as int,
                is_high,
            ),
            old(self).direction(final(regs)@) == old(self).direction(old(regs)@),
            old(self).input(final(regs)@) == old(self).input(old(regs)@),
            forall|address: u16|
                address != old(self).data_address() ==> final(regs)@[address as int] == old(
                    regs,
                )@[address as int],
    {
        proof {
            use_type_invariant(&*self);
        }
        let current = regs.read(self.port);
        regs.write(self.port, assign_bit(current, pin, is_high));
    }

    /// Reads the input register once and tells whether the bit of `pin` is
    /// set, whatever the direction of the pin. The registers are borrowed
    /// shared: no byte of them changes.
    pub fn read_pin(&self, regs: &RegisterFile, pin: u8) -> (level: bool)
        requires
            pin < 8,
        ensures
            level == self.pin_level(regs@, pin),
    {
        test_bit(regs.read(self.pin), pin)
    }

    /// The address of the direction register.
    pub fn direction_register_address(&self) -> (address: u16)
        ensures
            address == self.direction_address(),
    {
        self.ddr
    }

    /// The address of the data register.
    pub fn data_register_address(&self) -> (address: u16)
        ensures
            address == self.data_address(),
    {
        self.port
    }

    /// The address of the input register.
    pub fn input_register_address(&self) -> (address: u16)
        ensures
            address == self.input_address(),
    {
        self.pin
    }
}

} // verus!
