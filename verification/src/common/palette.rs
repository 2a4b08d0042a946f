use vstd::prelude::*;

verus! {

/// RGB palette, three bytes per entry.
#[derive(Debug, Clone, PartialEq, Eq)]
pub struct Palette {
    rgb: Vec<u8>,
}

impl Palette {
    pub closed spec fn spec_rgb(&self) -> Seq<u8> {
        self.rgb@
    }

    pub fn from_rgb_entries(rgb: Vec<u8>) -> (r: Self)
        ensures
            r.spec_rgb() == rgb@,
    {
        Self { rgb }
    }

    /// Number of complete RGB triples.
    pub fn entries(&self) -> (r: usize)
        ensures
            r == self.spec_rgb().len() / 3,
    {
        self.rgb.len() / 3
    }

    pub fn rgb(&self) -> (r: &[u8])
        ensures
            r@ == self.spec_rgb(),
    {
        self.rgb.as_slice()
    }
}

} // verus!
