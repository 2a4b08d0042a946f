use nesle::input::ControllerPorts;

#[test]
fn shifts_controller_bits_after_latch() {
    let mut ports = ControllerPorts::default();
    ports.set_mask(0, 0b1000_0101);
    ports.commit_pending_input();
    ports.write_strobe(1);
    ports.write_strobe(0);

    let bits: Vec<u8> = (0..8).map(|_| ports.read(0)).collect();
    assert_eq!(bits, vec![1, 0, 1, 0, 0, 0, 0, 1]);
    let after_eight: Vec<u8> = (0..12).map(|_| ports.read(0)).collect();
    assert_eq!(after_eight, vec![1; 12]);
}

#[test]
fn four_score_reads_all_four_controllers() {
    let mut ports = ControllerPorts::default();
    ports.set_four_score_mode(true);
    ports.set_masks([0x0F, 0x03, 0x50, 0x88]);
    ports.commit_pending_input();
    ports.write_strobe(1);
    ports.write_strobe(0);

    let p0: Vec<u8> = (0..16).map(|_| ports.read(0)).collect();
    let bits = |m: u8| (0..8).map(move |i| (m >> i) & 1);
    let expect0: Vec<u8> = bits(0x0F).chain(bits(0x50)).collect();
    assert_eq!(p0, expect0, "$4016 must serialize controllers 1 then 3");

    let p1: Vec<u8> = (0..16).map(|_| ports.read(1)).collect();
    let expect1: Vec<u8> = bits(0x03).chain(bits(0x88)).collect();
    assert_eq!(p1, expect1, "$4017 must serialize controllers 2 then 4");

    let sig0: Vec<u8> = (0..8).map(|_| ports.read(0)).collect();
    assert_eq!(sig0, vec![0, 0, 0, 1, 0, 0, 0, 0], "$4016 signature 0x08 LSB-first");
    let sig1: Vec<u8> = (0..8).map(|_| ports.read(1)).collect();
    assert_eq!(sig1, vec![0, 0, 1, 0, 0, 0, 0, 0], "$4017 signature 0x04 LSB-first");
}

#[test]
fn falling_strobe_edge_restarts_serial_reads() {
    let mut ports = ControllerPorts::default();
    ports.set_mask(0, 0x01);
    ports.commit_pending_input();
    ports.write_strobe(1);
    ports.write_strobe(0);
    assert_eq!(ports.read(0), 1);
    assert_eq!(ports.read(0), 0);
    ports.write_strobe(1);
    ports.write_strobe(0);
    assert_eq!(ports.read(0), 1);
}

#[test]
fn opposing_directions_are_filtered_from_masks() {
    let mut ports = ControllerPorts::default();
    ports.set_mask(0, 0x30 | 0x01);
    ports.commit_pending_input();
    ports.write_strobe(1);
    ports.write_strobe(0);
    let bits: Vec<u8> = (0..8).map(|_| ports.read(0)).collect();
    assert_eq!(bits[4] & bits[5], 0);
}

#[test]
fn snapshot_round_trip_keeps_serial_position() {
    let mut ports = ControllerPorts::default();
    ports.set_mask(0, 0x05);
    ports.commit_pending_input();
    ports.write_strobe(1);
    ports.write_strobe(0);
    ports.read(0);
    let snap = ports.snapshot_bytes();
    let mut other = ControllerPorts::default();
    other.restore_snapshot(snap);
    assert_eq!(other.read(0), ports.read(0));
    assert_eq!(other.snapshot_bytes(), ports.snapshot_bytes());
}
