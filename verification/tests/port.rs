use avr_port::registers::RegisterFile;
use avr_port::{portb, portc, portd, Port};

const DDR: u16 = 0x24;
const DATA: u16 = 0x25;
const INPUT: u16 = 0x23;

fn snapshot(regs: &RegisterFile) -> Vec<u8> {
    (0u16..=u16::MAX).map(|address| regs.read(address)).collect()
}

fn loaded(direction: u8, data: u8, input: u8) -> RegisterFile {
    let mut regs = RegisterFile::new();
    regs.write(DDR, direction);
    regs.write(DATA, data);
    regs.write(INPUT, input);
    regs
}

#[test]
fn new_keeps_the_three_addresses() {
    let port = Port::new(0x0124, 0x0125, 0x0123);
    assert_eq!(port.direction_register_address(), 0x0124);
    assert_eq!(port.data_register_address(), 0x0125);
    assert_eq!(port.input_register_address(), 0x0123);
}

#[test]
fn port_b_is_bound_to_its_registers() {
    let port = portb::init();
    assert_eq!(port.direction_register_address(), 0x24);
    assert_eq!(port.data_register_address(), 0x25);
    assert_eq!(port.input_register_address(), 0x23);
    assert_eq!((portb::DDRB, portb::PORTB, portb::PINB), (0x24, 0x25, 0x23));
}

#[test]
fn port_c_is_bound_to_its_registers() {
    let port = portc::init();
    assert_eq!(port.direction_register_address(), 0x27);
    assert_eq!(port.data_register_address(), 0x28);
    assert_eq!(port.input_register_address(), 0x26);
    assert_eq!((portc::DDRC, portc::PORTC, portc::PINC), (0x27, 0x28, 0x26));
}

#[test]
fn port_d_is_bound_to_its_registers() {
    let port = portd::init();
    assert_eq!(port.direction_register_address(), 0x2a);
    assert_eq!(port.data_register_address(), 0x2b);
    assert_eq!(port.input_register_address(), 0x29);
    assert_eq!((portd::DDRD, portd::PORTD, portd::PIND), (0x2a, 0x2b, 0x29));
}

#[test]
fn init_twice_gives_the_same_port() {
    let first = portb::init();
    let second = portb::init();
    assert_eq!(first.direction_register_address(), second.direction_register_address());
    assert_eq!(first.data_register_address(), second.data_register_address());
    assert_eq!(first.input_register_address(), second.input_register_address());
}

#[test]
fn device_ports_share_no_register() {
    let ports = [portb::init(), portc::init(), portd::init()];
    let mut addresses = Vec::new();
    for port in &ports {
        addresses.push(port.direction_register_address());
        addresses.push(port.data_register_address());
        addresses.push(port.input_register_address());
    }
    for i in 0..addresses.len() {
        for j in 0..i {
            assert_ne!(addresses[i], addresses[j]);
        }
    }
}

#[test]
fn construction_touches_no_register() {
    let regs = loaded(0x12, 0x34, 0x56);
    let before = snapshot(&regs);
    let _port = portb::init();
    let _other = Port::new(0x30, 0x31, 0x32);
    assert_eq!(snapshot(&regs), before);
}

#[test]
fn set_pin_mode_output_sets_the_direction_bit() {
    let mut regs = RegisterFile::new();
    let mut port = portb::init();
    port.set_pin_mode(&mut regs, 5, true);
    assert_eq!(regs.read(DDR), 0b0010_0000);
}

#[test]
fn set_pin_mode_input_clears_the_direction_bit() {
    let mut regs = loaded(0xff, 0, 0);
    let mut port = portb::init();
    port.set_pin_mode(&mut regs, 5, false);
    assert_eq!(regs.read(DDR), 0b1101_1111);
}

#[test]
fn set_pin_mode_isolates_the_bit_for_every_byte_and_pin() {
    let mut port = portb::init();
    for value in 0u8..=255 {
        for pin in 0u8..8 {
            let mut regs = loaded(value, 0, 0);
            port.set_pin_mode(&mut regs, pin, true);
            assert_eq!(regs.read(DDR), value | (1 << pin));
            let mut regs = loaded(value, 0, 0);
            port.set_pin_mode(&mut regs, pin, false);
            assert_eq!(regs.read(DDR), value & !(1 << pin));
        }
    }
}

#[test]
fn set_pin_mode_output_then_input_restores_an_input_pin() {
    let mut port = portb::init();
    for value in 0u8..=255 {
        for pin in 0u8..8 {
            if value & (1 << pin) != 0 {
                continue;
            }
            let mut regs = loaded(value, 0x3c, 0xc3);
            let before = snapshot(&regs);
            port.set_pin_mode(&mut regs, pin, true);
            port.set_pin_mode(&mut regs, pin, false);
            assert_eq!(snapshot(&regs), before);
        }
    }
}

#[test]
fn set_pin_mode_output_then_input_clears_an_output_pin() {
    let mut regs = loaded(0b0010_0001, 0, 0);
    let mut port = portb::init();
    port.set_pin_mode(&mut regs, 5, true);
    port.set_pin_mode(&mut regs, 5, false);
    assert_eq!(regs.read(DDR), 0b0000_0001);
}

#[test]
fn set_pin_mode_twice_is_the_same_as_once() {
    let mut regs = loaded(0b1000_0001, 0, 0);
    let mut port = portb::init();
    port.set_pin_mode(&mut regs, 3, true);
    let once = snapshot(&regs);
    port.set_pin_mode(&mut regs, 3, true);
    assert_eq!(snapshot(&regs), once);
    assert_eq!(regs.read(DDR), 0b1000_1001);
}

#[test]
fn set_pin_state_high_sets_the_data_bit() {
    let mut regs = RegisterFile::new();
    let mut port = portb::init();
    port.set_pin_state(&mut regs, 5, true);
    assert_eq!(regs.read(DATA), 0b0010_0000);
}

#[test]
fn set_pin_state_low_clears_the_data_bit() {
    let mut regs = loaded(0, 0xff, 0);
    let mut port = portb::init();
    port.set_pin_state(&mut regs, 0, false);
    assert_eq!(regs.read(DATA), 0b1111_1110);
}

#[test]
fn set_pin_state_isolates_the_bit_for_every_byte_and_pin() {
    let mut port = portb::init();
    for value in 0u8..=255 {
        for pin in 0u8..8 {
            let mut regs = loaded(0, value, 0);
            port.set_pin_state(&mut regs, pin, true);
            assert_eq!(regs.read(DATA), value | (1 << pin));
            let mut regs = loaded(0, value, 0);
            port.set_pin_state(&mut regs, pin, false);
            assert_eq!(regs.read(DATA), value & !(1 << pin));
        }
    }
}

#[test]
fn set_pin_state_does_not_ask_for_an_output_pin() {
    let mut regs = loaded(0x00, 0x00, 0x00);
    let mut port = portb::init();
    port.set_pin_state(&mut regs, 2, true);
    assert_eq!(regs.read(DATA), 0b0000_0100);
    assert_eq!(regs.read(DDR), 0x00);
}

#[test]
fn set_pin_state_leaves_direction_and_input() {
    let mut port = portb::init();
    for pin in 0u8..8 {
        for is_high in [false, true] {
            let mut regs = loaded(0xa5, 0x3c, 0x96);
            port.set_pin_state(&mut regs, pin, is_high);
            assert_eq!(regs.read(DDR), 0xa5);
            assert_eq!(regs.read(INPUT), 0x96);
        }
    }
}

#[test]
fn set_pin_mode_leaves_data_and_input() {
    let mut port = portb::init();
    for pin in 0u8..8 {
        for is_output in [false, true] {
            let mut regs = loaded(0xa5, 0x3c, 0x96);
            port.set_pin_mode(&mut regs, pin, is_output);
            assert_eq!(regs.read(DATA), 0x3c);
            assert_eq!(regs.read(INPUT), 0x96);
        }
    }
}

#[test]
fn setters_change_one_address_only() {
    let mut port = portb::init();
    let mut regs = loaded(0x0f, 0xf0, 0x55);
    regs.write(0x0000, 0x01);
    regs.write(0xffff, 0x02);
    let before = snapshot(&regs);
    port.set_pin_mode(&mut regs, 7, true);
    port.set_pin_state(&mut regs, 0, true);
    let after = snapshot(&regs);
    for address in 0..before.len() {
        if address == DDR as usize {
            assert_eq!(after[address], 0x8f);
        } else if address == DATA as usize {
            assert_eq!(after[address], 0xf1);
        } else {
            assert_eq!(after[address], before[address]);
        }
    }
}

#[test]
fn read_pin_changes_no_register() {
    let port = portb::init();
    for value in [0x00u8, 0xff, 0xa5, 0x5a] {
        let regs = loaded(value, !value, value ^ 0x0f);
        let before = snapshot(&regs);
        for pin in 0u8..8 {
            let _level = port.read_pin(&regs, pin);
        }
        assert_eq!(snapshot(&regs), before);
    }
}

#[test]
fn read_pin_follows_the_input_bit() {
    let port = portb::init();
    let mut regs = loaded(0, 0, 0b0010_0000);
    assert!(port.read_pin(&regs, 5));
    regs.write(INPUT, 0b0000_0000);
    assert!(!port.read_pin(&regs, 5));
}

#[test]
fn read_pin_of_other_pins_ignores_a_change_of_one() {
    let port = portb::init();
    for value in 0u8..=255 {
        for pin in 0u8..8 {
            let regs = loaded(0, 0, value);
            let flipped = loaded(0, 0, value ^ (1 << pin));
            for other in 0u8..8 {
                if other == pin {
                    assert_ne!(port.read_pin(&regs, other), port.read_pin(&flipped, other));
                } else {
                    assert_eq!(port.read_pin(&regs, other), port.read_pin(&flipped, other));
                }
            }
        }
    }
}

#[test]
fn read_pin_reads_the_input_register_not_the_data_register() {
    let mut port = portb::init();
    let mut regs = RegisterFile::new();
    port.set_pin_mode(&mut regs, 5, true);
    port.set_pin_state(&mut regs, 5, true);
    assert!(!port.read_pin(&regs, 5));
    regs.write(INPUT, 0b0010_0000);
    assert!(port.read_pin(&regs, 5));
}

#[test]
fn read_pin_works_whatever_the_direction() {
    let port = portb::init();
    let as_input = loaded(0x00, 0, 0b0000_1000);
    let as_output = loaded(0xff, 0, 0b0000_1000);
    assert!(port.read_pin(&as_input, 3));
    assert!(port.read_pin(&as_output, 3));
    assert!(!port.read_pin(&as_input, 4));
    assert!(!port.read_pin(&as_output, 4));
}

#[test]
fn one_port_leaves_the_registers_of_the_others() {
    let mut b = portb::init();
    let c = portc::init();
    let d = portd::init();
    let mut regs = RegisterFile::new();
    regs.write(0x26, 0x11);
    regs.write(0x27, 0x22);
    regs.write(0x28, 0x33);
    regs.write(0x29, 0x44);
    regs.write(0x2a, 0x55);
    regs.write(0x2b, 0x66);
    for pin in 0u8..8 {
        b.set_pin_mode(&mut regs, pin, true);
        b.set_pin_state(&mut regs, pin, true);
    }
    assert_eq!(regs.read(DDR), 0xff);
    assert_eq!(regs.read(DATA), 0xff);
    assert_eq!(regs.read(c.input_register_address()), 0x11);
    assert_eq!(regs.read(c.direction_register_address()), 0x22);
    assert_eq!(regs.read(c.data_register_address()), 0x33);
    assert_eq!(regs.read(d.input_register_address()), 0x44);
    assert_eq!(regs.read(d.direction_register_address()), 0x55);
    assert_eq!(regs.read(d.data_register_address()), 0x66);
}

#[test]
fn one_port_does_not_read_the_registers_of_the_others() {
    let b = portb::init();
    let mut regs = loaded(0, 0, 0b0100_0000);
    let before: Vec<bool> = (0u8..8).map(|pin| b.read_pin(&regs, pin)).collect();
    for address in [0x26u16, 0x27, 0x28, 0x29, 0x2a, 0x2b] {
        regs.write(address, 0xff);
    }
    let after: Vec<bool> = (0u8..8).map(|pin| b.read_pin(&regs, pin)).collect();
    assert_eq!(after, before);
    assert_eq!(before, vec![false, false, false, false, false, false, true, false]);
}

#[test]
fn blinking_pin_five_of_port_b() {
    let mut port = portb::init();
    let mut regs = RegisterFile::new();
    port.set_pin_mode(&mut regs, 0x05, true);
    assert_eq!(regs.read(DDR), 0x20);
    for _ in 0..3 {
        port.set_pin_state(&mut regs, 0x05, true);
        assert_eq!(regs.read(DATA), 0x20);
        port.set_pin_state(&mut regs, 0x05, false);
        assert_eq!(regs.read(DATA), 0x00);
    }
    assert_eq!(regs.read(DDR), 0x20);
}
