use corrosion::{
    ControllerPorts, InvalidAddress, ShiftRegister8, CONTROLLER1_ADDR, CONTROLLER2_ADDR, OPEN_BUS,
};

fn latch(ports: &mut ControllerPorts, state: u8) {
    ports.set_live(state);
    assert_eq!(ports.write(CONTROLLER1_ADDR, 0x01), Ok(()));
    assert_eq!(ports.write(CONTROLLER1_ADDR, 0x00), Ok(()));
}

#[test]
fn shift_register_hands_out_low_bit_first() {
    let mut reg = ShiftRegister8::new(0b0000_0110);
    assert_eq!(reg.shift(), 0);
    assert_eq!(reg.shift(), 1);
    assert_eq!(reg.shift(), 1);
    assert_eq!(reg.shift(), 0);
    assert_eq!(reg.bits(), 0);
}

#[test]
fn shift_register_load_replaces_bits() {
    let mut reg = ShiftRegister8::new(0xff);
    reg.shift();
    reg.load(0x81);
    assert_eq!(reg.bits(), 0x81);
    assert_eq!(reg.shift(), 1);
    assert_eq!(reg.bits(), 0x40);
}

#[test]
fn eight_reads_drain_latched_value_then_open_bus() {
    let mut ports = ControllerPorts::new();
    let v: u8 = 0b1010_0101;
    latch(&mut ports, v);
    for k in 0..8 {
        assert_eq!(ports.read(CONTROLLER1_ADDR), Ok(OPEN_BUS | ((v >> k) & 1)));
    }
    for _ in 0..5 {
        assert_eq!(ports.read(CONTROLLER1_ADDR), Ok(OPEN_BUS));
    }
    assert_eq!(OPEN_BUS, 0x40);
}

#[test]
fn all_buttons_read_as_ones_then_open_bus() {
    let mut ports = ControllerPorts::new();
    latch(&mut ports, 0xff);
    for _ in 0..8 {
        assert_eq!(ports.read(CONTROLLER1_ADDR), Ok(0x41));
    }
    assert_eq!(ports.read(CONTROLLER1_ADDR), Ok(0x40));
}

#[test]
fn strobe_fall_latches_state_of_that_moment() {
    let mut ports = ControllerPorts::new();
    ports.set_live(0b0000_0011);
    assert_eq!(ports.write(CONTROLLER1_ADDR, 0x01), Ok(()));
    ports.set_live(0b0000_0101);
    assert_eq!(ports.write(CONTROLLER1_ADDR, 0x00), Ok(()));
    ports.set_live(0b1111_1010);
    assert_eq!(ports.read(CONTROLLER1_ADDR), Ok(0x41));
    assert_eq!(ports.read(CONTROLLER1_ADDR), Ok(0x40));
    ports.set_live(0);
    assert_eq!(ports.read(CONTROLLER1_ADDR), Ok(0x41));
    assert_eq!(ports.read(CONTROLLER1_ADDR), Ok(0x40));
}

#[test]
fn strobe_high_reads_follow_first_button() {
    let mut ports = ControllerPorts::new();
    ports.set_live(0x01);
    assert_eq!(ports.write(CONTROLLER1_ADDR, 0x01), Ok(()));
    for _ in 0..10 {
        assert_eq!(ports.read(CONTROLLER1_ADDR), Ok(0x41));
    }
    ports.set_live(0x02);
    assert_eq!(ports.read(CONTROLLER1_ADDR), Ok(0x40));
}

#[test]
fn strobe_uses_only_low_bit() {
    let mut ports = ControllerPorts::new();
    ports.set_live(0x01);
    assert_eq!(ports.write(CONTROLLER1_ADDR, 0xfe), Ok(()));
    assert_eq!(ports.read(CONTROLLER1_ADDR), Ok(0x40));
    ports.set_live(0x01);
    assert_eq!(ports.read(CONTROLLER1_ADDR), Ok(0x40));
}

#[test]
fn second_port_reads_open_bus_and_ignores_writes() {
    let mut ports = ControllerPorts::new();
    ports.set_live(0xff);
    assert_eq!(ports.write(CONTROLLER2_ADDR, 0x01), Ok(()));
    assert_eq!(ports.read(CONTROLLER2_ADDR), Ok(0x40));
    assert_eq!(ports.read(CONTROLLER1_ADDR), Ok(0x40));
}

#[test]
fn other_addresses_are_refused() {
    let mut ports = ControllerPorts::new();
    assert_eq!(ports.read(0x4015), Err(InvalidAddress { address: 0x4015 }));
    assert_eq!(ports.write(0x2000, 1), Err(InvalidAddress { address: 0x2000 }));
    latch(&mut ports, 0x01);
    assert_eq!(ports.write(0x4018, 0), Err(InvalidAddress { address: 0x4018 }));
    assert_eq!(ports.read(CONTROLLER1_ADDR), Ok(0x41));
}
