use vstd::prelude::*;
use crate::bits::{bit, bits, lemma_bits_determine_byte, lemma_bits_of_with_bit, with_bit};
use crate::port::Port;
use crate::registers::spans_address_space;

verus! {

/// Of two mode settings of the same pin the later one decides: the earlier
/// one leaves no trace in the registers.
pub proof fn lemma_later_pin_mode_decides(
    port: Port,
    regs: Seq<u8>,
    pin: u8,
    earlier: bool,
    later: bool,
)
    requires
        spans_address_space(regs),
        pin < 8,
    ensures
        port.with_pin_mode(port.with_pin_mode(regs, pin, earlier), pin, later)
            == port.with_pin_mode(regs, pin, later),
{
    let before = port.direction(regs);
    let between = with_bit(before, pin, earlier);
    lemma_bits_of_with_bit(before, pin, earlier);
    lemma_bits_of_with_bit(between, pin, later);
    lemma_bits_of_with_bit(before, pin, later);
    assert(bits(with_bit(between, pin, later)) =~= bits(with_bit(before, pin, later)));
    lemma_bits_determine_byte(with_bit(between, pin, later), with_bit(before, pin, later));
    assert(port.with_pin_mode(port.with_pin_mode(regs, pin, earlier), pin, later)
        =~= port.with_pin_mode(regs, pin, later));
}

/// Setting a pin to the mode that it already has changes no register.
pub proof fn lemma_same_pin_mode_changes_nothing(port: Port, regs: Seq<u8>, pin: u8)
    requires
        spans_address_space(regs),
        pin < 8,
    ensures
        port.with_pin_mode(regs, pin, bit(port.direction(regs), pin)) == regs,
{
    let before = port.direction(regs);
    let after = with_bit(before, pin, bit(before, pin));
    lemma_bits_of_with_bit(before, pin, bit(before, pin));
    assert(bits(after) =~= bits(before));
    lemma_bits_determine_byte(after, before);
    assert(port.with_pin_mode(regs, pin, bit(before, pin)) =~= regs);
}

/// Making an input pin an output and then an input again restores every
/// register, the direction register included.
pub proof fn lemma_pin_mode_round_trip(port: Port, regs: Seq<u8>, pin: u8)
    requires
        spans_address_space(regs),
        pin < 8,
        !bit(port.direction(regs), pin),
    ensures
        port.with_pin_mode(port.with_pin_mode(regs, pin, true), pin, false) == regs,
{
    lemma_later_pin_mode_decides(port, regs, pin, true, false);
    lemma_same_pin_mode_changes_nothing(port, regs, pin);
}

/// Each operation writes to one register of the port only: setting a pin's
/// state leaves the direction and input bytes as they were, and setting a
/// pin's mode leaves the data and input bytes as they were.
pub proof fn lemma_registers_independent(port: Port, regs: Seq<u8>, pin: u8, on: bool)
    requires
        port.wf(),
        spans_address_space(regs),
        pin < 8,
    ensures
        port.direction(port.with_pin_state(regs, pin, on)) == port.direction(regs),
        port.input(port.with_pin_state(regs, pin, on)) == port.input(regs),
        port.data(port.with_pin_mode(regs, pin, on)) == port.data(regs),
        port.input(port.with_pin_mode(regs, pin, on)) == port.input(regs),
{
}

/// When the input register comes to show `on` at `pin`, that pin reads as
/// `on` and every other pin reads as before.
pub proof fn lemma_input_round_trip(port: Port, regs: Seq<u8>, pin: u8, other: u8, on: bool)
    requires
        spans_address_space(regs),
        pin < 8,
        other < 8,
    ensures
        ({
            let shown = regs.update(
                port.input_address() as int,
                with_bit(port.input(regs), pin, on),
            );
            &&& port.pin_level(shown, pin) == on
            &&& other != pin ==> port.pin_level(shown, other) == port.pin_level(regs, other)
        }),
{
    lemma_bits_of_with_bit(port.input(regs), pin, on);
    let after = with_bit(port.input(regs), pin, on);
    assert(bits(after)[pin as int] == bit(after, pin));
    assert(bits(after)[other as int] == bit(after, other));
    assert(bits(port.input(regs))[other as int] == bit(port.input(regs), other));
}

/// Two ports with no register in common do not touch each other: what one
/// sets leaves the three bytes of the other as they were, and what one reads
/// does not depend on a byte of the other.
pub proof fn lemma_ports_isolated(
    acting: Port,
    other: Port,
    regs: Seq<u8>,
    pin: u8,
    on: bool,
    address: u16,
    value: u8,
)
    requires
        acting.disjoint(other),
        spans_address_space(regs),
        pin < 8,
        other.owns(address),
    ensures
        other.direction(acting.with_pin_mode(regs, pin, on)) == other.direction(regs),
        other.data(acting.with_pin_mode(regs, pin, on)) == other.data(regs),
        other.input(acting.with_pin_mode(regs, pin, on)) == other.input(regs),
        other.direction(acting.with_pin_state(regs, pin, on)) == other.direction(regs),
        other.data(acting.with_pin_state(regs, pin, on)) == other.data(regs),
        other.input(acting.with_pin_state(regs, pin, on)) == other.input(regs),
        acting.pin_level(regs.update(address as int, value), pin) == acting.pin_level(regs, pin),
{
    assert(acting.owns(acting.direction_address()));
    assert(acting.owns(acting.data_address()));
    assert(acting.owns(acting.input_address()));
    assert(other.owns(other.direction_address()));
    assert(other.owns(other.data_address()));
    assert(other.owns(other.input_address()));
}

/// The ports B, C and D have no register in common, two by two.
pub proof fn lemma_device_ports_disjoint(b: Port, c: Port, d: Port)
    requires
        crate::portb::binds(b),
        crate::portc::binds(c),
        crate::portd::binds(d),
    ensures
        b.disjoint(c) && c.disjoint(b),
        b.disjoint(d) && d.disjoint(b),
        c.disjoint(d) && d.disjoint(c),
{
}

} // verus!
