use vstd::prelude::*;

verus! {

/// Standard/Four Score controller ports at `$4016/$4017`.
#[derive(Debug, Clone, Copy)]
pub struct ControllerPorts {
    /// Live button masks, committed once per frame.
    pub masks: [u8; 4],
    /// Button snapshot captured at the last latch; reads shift these out.
    pub latch_masks: [u8; 4],
    /// Per-controller serial read cursor.
    pub shift: [u8; 4],
    pub strobe: bool,
    pub pending_value: u8,
    pub pending_delay: u8,
    pub pending_write: bool,
    /// Host masks waiting for the input-capture scanline.
    pub pending_masks: [u8; 4],
    /// Four Score adapter mode, a cartridge attribute.
    pub four_score_mode: bool,
    /// Four Score port-read countdown before the signature bits.
    pub sig_counter: [u8; 2],
    /// Four Score identification shift registers.
    pub signature: [u8; 2],
}

/// Mathematical model of the ports: every array as a sequence.
pub struct PortsModel {
    pub masks: Seq<u8>,
    pub latch_masks: Seq<u8>,
    pub shift: Seq<u8>,
    pub strobe: bool,
    pub pending_value: u8,
    pub pending_delay: u8,
    pub pending_write: bool,
    pub pending_masks: Seq<u8>,
    pub four_score_mode: bool,
    pub sig_counter: Seq<u8>,
    pub signature: Seq<u8>,
}

impl View for ControllerPorts {
    type V = PortsModel;

    open spec fn view(&self) -> PortsModel {
        PortsModel {
            masks: self.masks@,
            latch_masks: self.latch_masks@,
            shift: self.shift@,
            strobe: self.strobe,
            pending_value: self.pending_value,
            pending_delay: self.pending_delay,
            pending_write: self.pending_write,
            pending_masks: self.pending_masks@,
            four_score_mode: self.four_score_mode,
            sig_counter: self.sig_counter@,
            signature: self.signature@,
        }
    }
}

/// Clear impossible D-pad pairs: Up+Down together and Left+Right together
/// are both released.
pub open spec fn filter_spec(mask: u8) -> u8 {
    let m1: u8 = if mask & 0x30 == 0x30 { mask & 0xCFu8 } else { mask };
    if m1 & 0xC0 == 0xC0 { m1 & 0x3Fu8 } else { m1 }
}

pub open spec fn b2u(b: bool) -> u8 {
    if b { 1 } else { 0 }
}

pub open spec fn sat_inc(v: u8) -> u8 {
    if v == 255 { 255 } else { (v + 1) as u8 }
}

impl PortsModel {
    /// Latch: restart every serial cursor on a snapshot of the live masks;
    /// Four Score also restarts its countdown and signatures.
    pub open spec fn latched(self) -> PortsModel {
        PortsModel {
            shift: seq![0u8, 0, 0, 0],
            latch_masks: self.masks,
            sig_counter: if self.four_score_mode { seq![16u8, 16] } else { self.sig_counter },
            signature: if self.four_score_mode { seq![0x08u8, 0x04] } else { self.signature },
            ..self
        }
    }

    /// Strobe-line write: a falling edge (1 -> 0) latches.
    pub open spec fn strobed(self, value: u8) -> PortsModel {
        let next = value & 0x01 != 0;
        let s = if self.strobe && !next { self.latched() } else { self };
        PortsModel { strobe: next, ..s }
    }

    /// Serial read of one port: the new model and the returned bit.
    pub open spec fn read_spec(self, port: int) -> (PortsModel, u8) {
        if port >= 2 {
            (self, 0)
        } else {
            let s = if self.strobe { self.latched() } else { self };
            if s.four_score_mode {
                if s.sig_counter[port] > 0 {
                    let post = (s.sig_counter[port] - 1) as u8;
                    let source = if post < 8 { port + 2 } else { port };
                    let bit = s.shift[source];
                    let v: u8 = if bit < 8 { (s.latch_masks[source] >> bit) & 0x01 } else { 0 };
                    (
                        PortsModel {
                            sig_counter: s.sig_counter.update(port, post),
                            shift: s.shift.update(source, sat_inc(bit)),
                            ..s
                        },
                        v,
                    )
                } else {
                    let sig = s.signature[port];
                    (
                        PortsModel {
                            signature: s.signature.update(port, ((sig >> 1u8) | 0x80u8) as u8),
                            ..s
                        },
                        sig & 0x01,
                    )
                }
            } else {
                let bit = s.shift[port];
                let v: u8 = if bit < 8 { (s.latch_masks[port] >> bit) & 0x01 } else { 1 };
                (PortsModel { shift: s.shift.update(port, sat_inc(bit)), ..s }, v)
            }
        }
    }

    /// The 25-byte snapshot layout.
    pub open spec fn snapshot_spec(self) -> Seq<u8> {
        self.masks + self.shift + seq![
            b2u(self.strobe),
            self.pending_value,
            self.pending_delay,
            b2u(self.pending_write),
            b2u(self.four_score_mode),
            self.sig_counter[0],
            self.sig_counter[1],
            self.signature[0],
            self.signature[1],
        ] + self.pending_masks + self.latch_masks
    }

    /// The model a 25-byte snapshot restores.
    pub open spec fn restore_spec(b: Seq<u8>) -> PortsModel {
        PortsModel {
            masks: b.subrange(0, 4),
            shift: b.subrange(4, 8),
            strobe: b[8] != 0,
            pending_value: b[9],
            pending_delay: b[10],
            pending_write: b[11] != 0,
            four_score_mode: b[12] != 0,
            sig_counter: seq![b[13], b[14]],
            signature: seq![b[15], b[16]],
            pending_masks: b.subrange(17, 21),
            latch_masks: b.subrange(21, 25),
        }
    }

    pub open spec fn wf(self) -> bool {
        &&& self.masks.len() == 4
        &&& self.latch_masks.len() == 4
        &&& self.shift.len() == 4
        &&& self.pending_masks.len() == 4
        &&& self.sig_counter.len() == 2
        &&& self.signature.len() == 2
    }
}

/// A snapshot restores exactly the state it was taken from.
pub proof fn lemma_ports_snapshot_roundtrip(m: PortsModel)
    requires
        m.wf(),
    ensures
        PortsModel::restore_spec(m.snapshot_spec()) == m,
{
    let b = m.snapshot_spec();
    assert(b.subrange(0, 4) =~= m.masks);
    assert(b.subrange(4, 8) =~= m.shift);
    assert(b.subrange(17, 21) =~= m.pending_masks);
    assert(b.subrange(21, 25) =~= m.latch_masks);
    assert(seq![b[13], b[14]] =~= m.sig_counter);
    assert(seq![b[15], b[16]] =~= m.signature);
}

/// Filtering never leaves opposing directions pressed and never touches
/// the face buttons or Select/Start.
pub proof fn lemma_filter_clears_opposing(mask: u8)
    ensures
        filter_spec(mask) & 0x30 != 0x30,
        filter_spec(mask) & 0xC0 != 0xC0,
        filter_spec(mask) & 0x0F == mask & 0x0F,
{
    assert(filter_spec(mask) & 0x30 != 0x30 && filter_spec(mask) & 0xC0 != 0xC0
        && filter_spec(mask) & 0x0F == mask & 0x0F) by (bit_vector);
}

impl Default for ControllerPorts {
    /// All-zero ports: no buttons, no pending strobe, standard controllers.
    fn default() -> (r: Self)
        ensures
            r@ == (PortsModel {
                masks: seq![0u8, 0, 0, 0],
                latch_masks: seq![0u8, 0, 0, 0],
                shift: seq![0u8, 0, 0, 0],
                strobe: false,
                pending_value: 0,
                pending_delay: 0,
                pending_write: false,
                pending_masks: seq![0u8, 0, 0, 0],
                four_score_mode: false,
                sig_counter: seq![0u8, 0],
                signature: seq![0u8, 0],
            }),
    {
        let r = ControllerPorts {
            masks: [0; 4],
            latch_masks: [0; 4],
            shift: [0; 4],
            strobe: false,
            pending_value: 0,
            pending_delay: 0,
            pending_write: false,
            pending_masks: [0; 4],
            four_score_mode: false,
            sig_counter: [0; 2],
            signature: [0; 2],
        };
        assert(r@.masks =~= seq![0u8, 0, 0, 0]);
        assert(r@.latch_masks =~= seq![0u8, 0, 0, 0]);
        assert(r@.shift =~= seq![0u8, 0, 0, 0]);
        assert(r@.pending_masks =~= seq![0u8, 0, 0, 0]);
        assert(r@.sig_counter =~= seq![0u8, 0]);
        assert(r@.signature =~= seq![0u8, 0]);
        r
    }
}

impl ControllerPorts {
    /// Clear all input state; the Four Score mode is a cartridge attribute
    /// and survives.
    pub fn reset(&mut self)
        ensures
            final(self)@ == (PortsModel {
                masks: seq![0u8, 0, 0, 0],
                latch_masks: seq![0u8, 0, 0, 0],
                shift: seq![0u8, 0, 0, 0],
                strobe: false,
                pending_value: 0,
                pending_delay: 0,
                pending_write: false,
                pending_masks: seq![0u8, 0, 0, 0],
                four_score_mode: old(self)@.four_score_mode,
                sig_counter: seq![0u8, 0],
                signature: seq![0u8, 0],
            }),
    {
        self.masks = [0; 4];
        self.pending_masks = [0; 4];
        self.latch_masks = [0; 4];
        self.shift = [0; 4];
        self.strobe = false;
        self.pending_value = 0;
        self.pending_delay = 0;
        self.pending_write = false;
        self.sig_counter = [0; 2];
        self.signature = [0; 2];
        assert(self@.masks =~= seq![0u8, 0, 0, 0]);
        assert(self@.latch_masks =~= seq![0u8, 0, 0, 0]);
        assert(self@.shift =~= seq![0u8, 0, 0, 0]);
        assert(self@.pending_masks =~= seq![0u8, 0, 0, 0]);
        assert(self@.sig_counter =~= seq![0u8, 0]);
        assert(self@.signature =~= seq![0u8, 0]);
    }

    /// Configure Four Score adapter mode from cartridge metadata.
    pub fn set_four_score_mode(&mut self, enabled: bool)
        ensures
            final(self)@ == (PortsModel { four_score_mode: enabled, ..old(self)@ }),
    {
        self.four_score_mode = enabled;
    }

    pub fn four_score_mode(&self) -> (r: bool)
        ensures
            r == self.four_score_mode,
    {
        self.four_score_mode
    }

    /// Clear impossible D-pad pairs for deterministic NES input.
    pub fn filter_invalid_input(mask: u8) -> (r: u8)
        ensures
            r == filter_spec(mask),
    {
        let mut m = mask;
        if m & 0x30 == 0x30 {
            m = m & 0xCFu8;
        }
        if m & 0xC0 == 0xC0 {
            m = m & 0x3Fu8;
        }
        m
    }

    /// Queue one port's host mask (filtered); it becomes live at the next
    /// commit. Ports beyond the fourth are ignored.
    pub fn set_mask(&mut self, port: usize, mask: u8)
        ensures
            final(self)@ == (if port < 4 {
                PortsModel {
                    pending_masks: old(self)@.pending_masks.update(port as int, filter_spec(mask)),
                    ..old(self)@
                }
            } else {
                old(self)@
            }),
    {
        let m = Self::filter_invalid_input(mask);
        if port < 4 {
            self.pending_masks[port] = m;
            assert(self@.pending_masks =~= old(self)@.pending_masks.update(port as int, m));
        }
    }

    /// Queue all four host masks (each filtered).
    pub fn set_masks(&mut self, masks: [u8; 4])
        ensures
            final(self)@ == (PortsModel {
                pending_masks: masks@.map_values(|m: u8| filter_spec(m)),
                ..old(self)@
            }),
    {
        let a = Self::filter_invalid_input(masks[0]);
        let b = Self::filter_invalid_input(masks[1]);
        let c = Self::filter_invalid_input(masks[2]);
        let d = Self::filter_invalid_input(masks[3]);
        self.pending_masks = [a, b, c, d];
        assert(self@.pending_masks =~= masks@.map_values(|m: u8| filter_spec(m)));
    }

    pub fn masks(&self) -> (r: &[u8; 4])
        ensures
            r@ == self.masks@,
    {
        &self.masks
    }

    /// Commit pending input at the PPU input-capture scanline.
    pub fn commit_pending_input(&mut self)
        ensures
            final(self)@ == (PortsModel { masks: old(self)@.pending_masks, ..old(self)@ }),
    {
        self.masks = self.pending_masks;
    }

    pub fn snapshot_bytes(&self) -> (r: [u8; 25])
        ensures
            r@ == self@.snapshot_spec(),
    {
        let r: [u8; 25] = [
            self.masks[0],
            self.masks[1],
            self.masks[2],
            self.masks[3],
            self.shift[0],
            self.shift[1],
            self.shift[2],
            self.shift[3],
            if self.strobe { 1 } else { 0 },
            self.pending_value,
            self.pending_delay,
            if self.pending_write { 1 } else { 0 },
            if self.four_score_mode { 1 } else { 0 },
            self.sig_counter[0],
            self.sig_counter[1],
            self.signature[0],
            self.signature[1],
            self.pending_masks[0],
            self.pending_masks[1],
            self.pending_masks[2],
            self.pending_masks[3],
            self.latch_masks[0],
            self.latch_masks[1],
            self.latch_masks[2],
            self.latch_masks[3],
        ];
        assert(r@ =~= self@.snapshot_spec());
        r
    }

    pub fn restore_snapshot(&mut self, bytes: [u8; 25])
        ensures
            final(self)@ == PortsModel::restore_spec(bytes@),
    {
        self.masks = [bytes[0], bytes[1], bytes[2], bytes[3]];
        self.shift = [bytes[4], bytes[5], bytes[6], bytes[7]];
        self.strobe = bytes[8] != 0;
        self.pending_value = bytes[9];
        self.pending_delay = bytes[10];
        self.pending_write = bytes[11] != 0;
        self.four_score_mode = bytes[12] != 0;
        self.sig_counter = [bytes[13], bytes[14]];
        self.signature = [bytes[15], bytes[16]];
        self.pending_masks = [bytes[17], bytes[18], bytes[19], bytes[20]];
        self.latch_masks = [bytes[21], bytes[22], bytes[23], bytes[24]];
        assert(self@.masks =~= bytes@.subrange(0, 4));
        assert(self@.shift =~= bytes@.subrange(4, 8));
        assert(self@.pending_masks =~= bytes@.subrange(17, 21));
        assert(self@.latch_masks =~= bytes@.subrange(21, 25));
        assert(self@.sig_counter =~= seq![bytes@[13], bytes@[14]]);
        assert(self@.signature =~= seq![bytes@[15], bytes@[16]]);
    }

    /// Immediate strobe write; cancels any queued write.
    pub fn write_strobe(&mut self, value: u8)
        ensures
            final(self)@ == (PortsModel {
                pending_write: false,
                pending_delay: 0,
                ..old(self)@
            }).strobed(value),
    {
        self.pending_write = false;
        self.pending_delay = 0;
        self.apply_strobe(value);
    }

    /// Queue a strobe write that lands after 1 (odd CPU cycle) or 2 (even)
    /// cycles; a newer write replaces a queued one.
    pub fn queue_strobe_write(&mut self, value: u8, cpu_cycle: u64)
        ensures
            final(self)@ == (PortsModel {
                pending_value: value,
                pending_delay: if cpu_cycle % 2 == 1 { 1 } else { 2 },
                pending_write: true,
                ..old(self)@
            }),
    {
        self.pending_value = value;
        self.pending_delay = if cpu_cycle % 2 == 1 { 1 } else { 2 };
        self.pending_write = true;
    }

    /// One CPU cycle of the queued strobe write: count down and apply it
    /// when the delay runs out.
    pub fn process_pending_write(&mut self)
        ensures
            !old(self)@.pending_write ==> final(self)@ == old(self)@,
            old(self)@.pending_write && old(self)@.pending_delay > 1 ==> final(self)@
                == (PortsModel { pending_delay: (old(self)@.pending_delay - 1) as u8, ..old(self)@ }),
            old(self)@.pending_write && old(self)@.pending_delay <= 1 ==> final(self)@
                == (PortsModel {
                pending_delay: 0,
                pending_write: false,
                ..old(self)@
            }).strobed(old(self)@.pending_value),
    {
        if !self.pending_write {
            return;
        }
        self.pending_delay = self.pending_delay.saturating_sub(1);
        if self.pending_delay == 0 {
            self.pending_write = false;
            let v = self.pending_value;
            self.apply_strobe(v);
        }
    }

    fn apply_strobe(&mut self, value: u8)
        ensures
            final(self)@ == old(self)@.strobed(value),
    {
        let next = value & 0x01 != 0;
        if self.strobe && !next {
            self.latch();
        }
        self.strobe = next;
    }

    /// Serial read of port 0 (`$4016`) or 1 (`$4017`); see
    /// `PortsModel::read_spec`.
    pub fn read(&mut self, port: usize) -> (r: u8)
        ensures
            (final(self)@, r) == old(self)@.read_spec(port as int),
            r <= 1,
    {
        if port >= 2 {
            return 0;
        }
        if self.strobe {
            self.latch();
        }
        if self.four_score_mode {
            if self.sig_counter[port] > 0 {
                self.sig_counter[port] = self.sig_counter[port] - 1;
                let post = self.sig_counter[port];
                let source = if post < 8 { port + 2 } else { port };
                let read_bit = self.shift[source];
                let lm = self.latch_masks[source];
                assert((lm >> read_bit) & 0x01 <= 1) by (bit_vector);
                let v = if read_bit < 8 { (lm >> read_bit) & 0x01 } else { 0 };
                self.shift[source] = read_bit.saturating_add(1);
                proof {
                    let s = if old(self)@.strobe { old(self)@.latched() } else { old(self)@ };
                    assert(self@.sig_counter =~= s.sig_counter.update(port as int, post));
                    assert(self@.shift =~= s.shift.update(source as int, sat_inc(read_bit)));
                }
                v
            } else {
                let sig = self.signature[port];
                assert(sig & 0x01 <= 1) by (bit_vector);
                let v = sig & 0x01;
                self.signature[port] = (sig >> 1) | 0x80;
                proof {
                    let s = if old(self)@.strobe { old(self)@.latched() } else { old(self)@ };
                    assert(self@.signature =~= s.signature.update(port as int, ((sig >> 1u8) | 0x80u8) as u8));
                }
                v
            }
        } else {
            let read_bit = self.shift[port];
            let v = if read_bit < 8 { (self.latch_masks[port] >> read_bit) & 0x01 } else { 1 };
            self.shift[port] = read_bit.saturating_add(1);
            proof {
                let s = if old(self)@.strobe { old(self)@.latched() } else { old(self)@ };
                assert(self@.shift =~= s.shift.update(port as int, sat_inc(read_bit)));
                if read_bit < 8 {
                    let lm = self.latch_masks[port as int];
                    assert((lm >> read_bit) & 0x01 <= 1) by (bit_vector);
                }
            }
            v
        }
    }

    fn latch(&mut self)
        ensures
            final(self)@ == old(self)@.latched(),
    {
        self.shift = [0; 4];
        self.latch_masks = self.masks;
        if self.four_score_mode {
            self.sig_counter = [16, 16];
            self.signature = [0x08, 0x04];
            assert(self@.sig_counter =~= seq![16u8, 16]);
            assert(self@.signature =~= seq![0x08u8, 0x04]);
        }
        assert(self@.shift =~= seq![0u8, 0, 0, 0]);
    }
}

} // verus!
