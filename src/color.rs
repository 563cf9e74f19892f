use vstd::prelude::*;

use crate::text::{decimal, push_decimal};

verus! {

/// An 8-bit-per-channel pixel color, stored as red, green and blue levels.
#[derive(Debug, Clone, Copy)]
pub struct Color {
    coeff: [u32; 3],
}

impl View for Color {
    type V = Seq<u32>;

    closed spec fn view(&self) -> Seq<u32> {
        self.coeff@
    }
}

impl Color {
    /// The three channel levels always form a sequence of length three.
    pub proof fn lemma_view_len(&self)
        ensures
            self@.len() == 3,
    {
    }

    /// The red level.
    pub fn r(&self) -> (r: u32)
        ensures
            r == self@[0],
    {
        self.at(0)
    }

    /// The green level.
    pub fn g(&self) -> (g: u32)
        ensures
            g == self@[1],
    {
        self.at(1)
    }

    /// The blue level.
    pub fn b(&self) -> (b: u32)
        ensures
            b == self@[2],
    {
        self.at(2)
    }

    /// The level of channel `index` (0 red, 1 green, 2 blue).
    pub fn at(&self, index: usize) -> (v: u32)
        requires
            index < 3,
        ensures
            v == self@[index as int],
    {
        self.coeff[index]
    }
}

/// The text of a color: its three levels in decimal, separated by single spaces.
pub open spec fn color_text(c: Seq<u32>) -> Seq<u8> {
    decimal(c[0] as nat) + seq![32u8] + decimal(c[1] as nat) + seq![32u8] + decimal(c[2] as nat)
}

impl Color {
    /// Appends the text of this color to `out`.
    pub fn push_text(&self, out: &mut Vec<u8>)
        ensures
            final(out)@ == old(out)@ + color_text(self@),
    {
        push_decimal(out, self.r() as usize);
        out.push(32);
        push_decimal(out, self.g() as usize);
        out.push(32);
        push_decimal(out, self.b() as usize);
        assert(out@ =~= old(out)@ + color_text(self@));
    }

    /// The text of this color, as ASCII bytes (for example `12 0 255`).
    pub fn to_text(&self) -> (r: Vec<u8>)
        ensures
            r@ == color_text(self@),
    {
        let mut out: Vec<u8> = Vec::new();
        self.push_text(&mut out);
        assert(out@ =~= color_text(self@));
        out
    }
}

impl Default for Color {
    /// Black: all three levels zero.
    fn default() -> (r: Color)
        ensures
            r@ == seq![0u32, 0u32, 0u32],
    {
        let r = Color::from([0, 0, 0]);
        assert(r@ =~= seq![0u32, 0u32, 0u32]);
        r
    }
}

impl From<[u32; 3]> for Color {
    fn from(value: [u32; 3]) -> (r: Color)
        ensures
            r@ == value@,
    {
        Color { coeff: value }
    }
}

impl vstd::std_specs::convert::FromSpecImpl<[u32; 3]> for Color {
    closed spec fn obeys_from_spec() -> bool {
        true
    }

    closed spec fn from_spec(v: [u32; 3]) -> Color {
        Color { coeff: v }
    }
}

} // verus!
