use nesle::common::error::{decimal_text, NesleError};
use nesle::common::action::{nes_full_action_set, NesButton};
use nesle::common::frame::{FrameDims, IndexedFrame};

#[test]
fn nes_full_action_set_is_unified_36() {
    let set = nes_full_action_set();
    assert_eq!(set.len(), 36);
    assert_eq!(set[0].mask, 0, "index 0 must be NOOP");
    let select_start = NesButton::Select.bits() | NesButton::Start.bits();
    let up_down = NesButton::Up.bits() | NesButton::Down.bits();
    let left_right = NesButton::Left.bits() | NesButton::Right.bits();
    for a in set {
        assert_eq!(a.mask & select_start, 0, "{} must not press Select/Start", a.name);
        assert_ne!(a.mask & up_down, up_down, "{} presses opposing Up+Down", a.name);
        assert_ne!(a.mask & left_right, left_right, "{} presses opposing Left+Right", a.name);
    }
}

#[test]
fn button_bits_are_distinct_single_bits() {
    let all = [
        NesButton::A,
        NesButton::B,
        NesButton::Select,
        NesButton::Start,
        NesButton::Up,
        NesButton::Down,
        NesButton::Left,
        NesButton::Right,
    ];
    let mut seen = 0u8;
    for b in all {
        assert_eq!(b.bits().count_ones(), 1);
        assert_eq!(seen & b.bits(), 0);
        seen |= b.bits();
    }
    assert_eq!(seen, 0xff);
}

#[test]
fn blank_frame_is_native_size_sentinel() {
    let f = IndexedFrame::blank_nes();
    assert_eq!(f.dims, FrameDims::nes());
    assert_eq!(f.pixels.len(), 256 * 240);
    assert!(f.pixels.iter().all(|&p| p == 0x80));
    assert_eq!(FrameDims::nes().len(), 61440);
    assert!(FrameDims { width: 0, height: 3 }.is_empty());
}

#[test]
fn decimal_text_writes_digits_most_significant_first() {
    assert_eq!(decimal_text(0), "0");
    assert_eq!(decimal_text(7), "7");
    assert_eq!(decimal_text(10), "10");
    assert_eq!(decimal_text(65535), "65535");
    assert_eq!(decimal_text(u64::MAX), u64::MAX.to_string());
}

#[test]
fn unsupported_mapper_message_names_the_id() {
    assert_eq!(NesleError::UnsupportedMapper(4).message(), "unsupported mapper: 4");
    assert_eq!(NesleError::UnsupportedMapper(1234).message(), "unsupported mapper: 1234");
}
