use vstd::prelude::*;

verus! {

/// Interleaved PCM audio buffer.
#[derive(Debug, Clone, PartialEq, Eq)]
pub struct AudioBuffer {
    samples: Vec<i16>,
    channels: u16,
}

impl AudioBuffer {
    pub closed spec fn spec_samples(&self) -> Seq<i16> {
        self.samples@
    }

    pub closed spec fn spec_channels(&self) -> u16 {
        self.channels
    }

    /// Two-channel buffer over the given interleaved samples.
    pub fn stereo(samples: Vec<i16>) -> (r: Self)
        ensures
            r.spec_samples() == samples@,
            r.spec_channels() == 2,
    {
        Self { samples, channels: 2 }
    }

    /// Two-channel buffer without samples.
    pub fn empty_stereo() -> (r: Self)
        ensures
            r.spec_samples() == Seq::<i16>::empty(),
            r.spec_channels() == 2,
    {
        Self::stereo(Vec::new())
    }

    pub fn samples(&self) -> (r: &[i16])
        ensures
            r@ == self.spec_samples(),
    {
        self.samples.as_slice()
    }

    pub fn channels(&self) -> (r: u16)
        ensures
            r == self.spec_channels(),
    {
        self.channels
    }
}

} // verus!
