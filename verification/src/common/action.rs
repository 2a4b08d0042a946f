use vstd::prelude::*;

verus! {

/// NES controller buttons; each one owns a single bit of the controller byte.
#[derive(Debug, Clone, Copy, PartialEq, Eq, Hash)]
pub enum NesButton {
    A,
    B,
    Select,
    Start,
    Up,
    Down,
    Left,
    Right,
}

/// Bit value of a button inside the controller byte.
pub open spec fn button_bit(b: NesButton) -> u8 {
    match b {
        NesButton::A => 0x01,
        NesButton::B => 0x02,
        NesButton::Select => 0x04,
        NesButton::Start => 0x08,
        NesButton::Up => 0x10,
        NesButton::Down => 0x20,
        NesButton::Left => 0x40,
        NesButton::Right => 0x80,
    }
}

impl NesButton {
    /// The controller-byte bit of this button.
    pub fn bits(self) -> (r: u8)
        ensures
            r == button_bit(self),
    {
        match self {
            NesButton::A => 0x01,
            NesButton::B => 0x02,
            NesButton::Select => 0x04,
            NesButton::Start => 0x08,
            NesButton::Up => 0x10,
            NesButton::Down => 0x20,
            NesButton::Left => 0x40,
            NesButton::Right => 0x80,
        }
    }
}

/// Named action mask used by ALE-style legal action sets.
#[derive(Debug, Clone, Copy, PartialEq, Eq, Hash)]
pub struct NesAction {
    /// Stable display/API name.
    pub name: &'static str,
    /// Bitwise OR of button bits.
    pub mask: u8,
}

impl NesAction {
    pub fn new(name: &'static str, mask: u8) -> (r: Self)
        ensures
            r.name == name,
            r.mask == mask,
    {
        Self { name, mask }
    }
}

/// The 36 gameplay masks of the unified action set, in table order:
/// 9 D-pad states times {none, A, B, A+B}.
pub open spec fn full_action_masks() -> Seq<u8> {
    seq![
        0x00u8, 0x01, 0x02, 0x03, 0x10, 0x11, 0x12, 0x13, 0x20, 0x21, 0x22, 0x23,
        0x40, 0x41, 0x42, 0x43, 0x80, 0x81, 0x82, 0x83, 0x50, 0x51, 0x52, 0x53,
        0x90, 0x91, 0x92, 0x93, 0x60, 0x61, 0x62, 0x63, 0xA0, 0xA1, 0xA2, 0xA3,
    ]
}

/// A gameplay mask presses neither Select nor Start and never presses
/// opposing D-pad directions.
pub open spec fn is_gameplay_mask(m: u8) -> bool {
    &&& m & 0x0C == 0
    &&& m & 0x30 != 0x30
    &&& m & 0xC0 != 0xC0
}

/// Unified NES gameplay action set (ALE-style full action space). Select and
/// Start are excluded because they are menu/pause controls.
pub fn nes_full_action_set() -> (r: [NesAction; 36])
    ensures
        forall|i: int| 0 <= i < 36 ==> #[trigger] r@[i].mask == full_action_masks()[i],
        r@[0].mask == 0,
{
    [
        NesAction::new("NOOP", 0x00),
        NesAction::new("A", 0x01),
        NesAction::new("B", 0x02),
        NesAction::new("AB", 0x03),
        NesAction::new("UP", 0x10),
        NesAction::new("UP_A", 0x11),
        NesAction::new("UP_B", 0x12),
        NesAction::new("UP_AB", 0x13),
        NesAction::new("DOWN", 0x20),
        NesAction::new("DOWN_A", 0x21),
        NesAction::new("DOWN_B", 0x22),
        NesAction::new("DOWN_AB", 0x23),
        NesAction::new("LEFT", 0x40),
        NesAction::new("LEFT_A", 0x41),
        NesAction::new("LEFT_B", 0x42),
        NesAction::new("LEFT_AB", 0x43),
        NesAction::new("RIGHT", 0x80),
        NesAction::new("RIGHT_A", 0x81),
        NesAction::new("RIGHT_B", 0x82),
        NesAction::new("RIGHT_AB", 0x83),
        NesAction::new("UPLEFT", 0x50),
        NesAction::new("UPLEFT_A", 0x51),
        NesAction::new("UPLEFT_B", 0x52),
        NesAction::new("UPLEFT_AB", 0x53),
        NesAction::new("UPRIGHT", 0x90),
        NesAction::new("UPRIGHT_A", 0x91),
        NesAction::new("UPRIGHT_B", 0x92),
        NesAction::new("UPRIGHT_AB", 0x93),
        NesAction::new("DOWNLEFT", 0x60),
        NesAction::new("DOWNLEFT_A", 0x61),
        NesAction::new("DOWNLEFT_B", 0x62),
        NesAction::new("DOWNLEFT_AB", 0x63),
        NesAction::new("DOWNRIGHT", 0xA0),
        NesAction::new("DOWNRIGHT_A", 0xA1),
        NesAction::new("DOWNRIGHT_B", 0xA2),
        NesAction::new("DOWNRIGHT_AB", 0xA3),
    ]
}

/// Every mask of the unified action set is a gameplay mask: no Select/Start,
/// no opposing Up+Down or Left+Right.
pub proof fn lemma_full_action_set_is_gameplay(i: int)
    requires
        0 <= i < 36,
    ensures
        is_gameplay_mask(full_action_masks()[i]),
{
    let m = full_action_masks()[i];
    assert(forall|x: u8|
        (x == 0x00 || x == 0x01 || x == 0x02 || x == 0x03 || x == 0x10 || x == 0x11 || x == 0x12
            || x == 0x13 || x == 0x20 || x == 0x21 || x == 0x22 || x == 0x23 || x == 0x40 || x
            == 0x41 || x == 0x42 || x == 0x43 || x == 0x80 || x == 0x81 || x == 0x82 || x == 0x83
            || x == 0x50 || x == 0x51 || x == 0x52 || x == 0x53 || x == 0x90 || x == 0x91 || x
            == 0x92 || x == 0x93 || x == 0x60 || x == 0x61 || x == 0x62 || x == 0x63 || x == 0xA0
            || x == 0xA1 || x == 0xA2 || x == 0xA3) ==> (x & 0x0C == 0 && x & 0x30 != 0x30 && x
            & 0xC0 != 0xC0)) by (bit_vector);
}

} // verus!
