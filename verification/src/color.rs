//! Colours and the colour-related enumerations that describe a fixture.

use core::cmp::Ordering;
use vstd::prelude::*;

verus! {

/// A colour of four 8-bit channels packed as `0xRRGGBBAA`: red in the most
/// significant byte, alpha in the least significant one.
///
/// Every `u32` is a colour. Equality, ordering and hashing all go by the
/// packed value alone.
#[derive(Clone, Copy, PartialEq, Eq, Structural, Ord, Hash)]
pub struct RGBA(pub u32);

/// The colour mode that a source file was authored in. The exported images of
/// a greyscale or indexed source may still be RGBA.
///
/// More variants may be added.
#[derive(Clone, Copy, Debug, PartialEq, Eq, Structural, PartialOrd, Ord, Hash)]
#[non_exhaustive]
pub enum AseColorFormat {
    Rgba,
    Greyscale,
    Indexed,
}

/// The colour profile that an exported image is expected to carry. It records
/// what the exporter was seen to write, which is not always what it was asked
/// to write.
///
/// More variants may be added.
#[derive(Clone, Copy, Debug, PartialEq, Eq, Structural, PartialOrd, Ord, Hash)]
#[non_exhaustive]
pub enum PngColorProfile {
    /// No embedded profile.
    NoProfile,
    SRGB,
    Other,
}

/// The packed value of four channels.
pub open spec fn pack(red: u8, green: u8, blue: u8, alpha: u8) -> u32 {
    ((red as u32) << 24u32) | ((green as u32) << 16u32) | ((blue as u32) << 8u32) | (alpha as u32)
}

/// The sixteen lowercase hexadecimal digits, by value.
pub open spec fn hex_digit(n: int) -> char
    recommends
        0 <= n < 16,
{
    "0123456789abcdef"@[n]
}

impl RGBA {
    /// The red channel: the most significant byte.
    pub open spec fn spec_red(self) -> u8 {
        (self.0 >> 24u32) as u8
    }

    /// The green channel: the second byte.
    pub open spec fn spec_green(self) -> u8 {
        ((self.0 >> 16u32) & 0xff) as u8
    }

    /// The blue channel: the third byte.
    pub open spec fn spec_blue(self) -> u8 {
        ((self.0 >> 8u32) & 0xff) as u8
    }

    /// The alpha channel: the least significant byte.
    pub open spec fn spec_alpha(self) -> u8 {
        (self.0 & 0xff) as u8
    }

    /// The `i`-th group of four bits, counted from the most significant one.
    pub open spec fn nibble(self, i: int) -> int
        recommends
            0 <= i < 8,
    {
        ((self.0 >> ((28 - 4 * i) as u32)) & 0xf) as int
    }

    /// The text of a colour: `#` and then the packed value as eight lowercase
    /// hexadecimal digits, most significant first.
    pub open spec fn hex_text(self) -> Seq<char> {
        seq!['#'] + Seq::new(8, |i: int| hex_digit(self.nibble(i)))
    }

    /// Packs four channels into a colour.
    pub fn new(red: u8, green: u8, blue: u8, alpha: u8) -> (c: RGBA)
        ensures
            c.0 == pack(red, green, blue, alpha),
            c.spec_red() == red,
            c.spec_green() == green,
            c.spec_blue() == blue,
            c.spec_alpha() == alpha,
    {
        let v: u32 = ((red as u32) << 24u32) | ((green as u32) << 16u32) | ((blue as u32) << 8u32)
            | (alpha as u32);
        assert((v >> 24u32) as u8 == red && ((v >> 16u32) & 0xff) as u8 == green && ((v >> 8u32)
            & 0xff) as u8 == blue && (v & 0xff) as u8 == alpha) by (bit_vector)
            requires
                v == ((red as u32) << 24u32) | ((green as u32) << 16u32) | ((blue as u32) << 8u32)
                    | (alpha as u32),
        ;
        RGBA(v)
    }

    /// The red channel.
    #[verifier::when_used_as_spec(spec_red)]
    pub fn red(self) -> (r: u8)
        ensures
            r == self.spec_red(),
    {
        (self.0 >> 24u32) as u8
    }

    /// The green channel.
    #[verifier::when_used_as_spec(spec_green)]
    pub fn green(self) -> (g: u8)
        ensures
            g == self.spec_green(),
    {
        ((self.0 >> 16u32) & 0xff) as u8
    }

    /// The blue channel.
    #[verifier::when_used_as_spec(spec_blue)]
    pub fn blue(self) -> (b: u8)
        ensures
            b == self.spec_blue(),
    {
        ((self.0 >> 8u32) & 0xff) as u8
    }

    /// The alpha channel.
    #[verifier::when_used_as_spec(spec_alpha)]
    pub fn alpha(self) -> (a: u8)
        ensures
            a == self.spec_alpha(),
    {
        (self.0 & 0xff) as u8
    }

    /// Renders the colour as `#rrggbbaa`. The text is meant for diagnostics
    /// and is not parsed back.
    pub fn to_hex_string(self) -> (s: String)
        ensures
            s@ == self.hex_text(),
    {
        let digits = "0123456789abcdef";
        proof {
            reveal_strlit("0123456789abcdef");
            reveal_strlit("#");
        }
        let mut s = String::from_str("#");
        let mut i: u32 = 0;
        while i < 8
            invariant
                i <= 8,
                digits@ == "0123456789abcdef"@,
                digits@.len() == 16,
                digits.is_ascii(),
                s@ == seq!['#'] + Seq::new(i as nat, |j: int| hex_digit(self.nibble(j))),
            decreases 8 - i,
        {
            let v: u32 = self.0;
            let shift: u32 = 28 - 4 * i;
            let n: u32 = (v >> shift) & 0xf;
            assert(n < 16) by (bit_vector)
                requires
                    n == (v >> shift) & 0xf,
            ;
            s.append(digits.substring_ascii(n as usize, n as usize + 1));
            i = i + 1;
        }
        s
    }
}

impl PartialOrd for RGBA {
    fn partial_cmp(&self, other: &Self) -> (r: Option<Ordering>) {
        if self.0 < other.0 {
            Some(Ordering::Less)
        } else if self.0 > other.0 {
            Some(Ordering::Greater)
        } else {
            Some(Ordering::Equal)
        }
    }
}

impl vstd::std_specs::cmp::PartialOrdSpecImpl for RGBA {
    open spec fn obeys_partial_cmp_spec() -> bool {
        true
    }

    /// Colours are ordered as their packed values are.
    open spec fn partial_cmp_spec(&self, other: &Self) -> Option<Ordering> {
        if self.0 < other.0 {
            Some(Ordering::Less)
        } else if self.0 > other.0 {
            Some(Ordering::Greater)
        } else {
            Some(Ordering::Equal)
        }
    }
}

/// Two colours are equal exactly when their four channels are.
pub proof fn lemma_equal_iff_channels_equal(a: RGBA, b: RGBA)
    ensures
        a == b <==> (a.spec_red() == b.spec_red() && a.spec_green() == b.spec_green()
            && a.spec_blue() == b.spec_blue() && a.spec_alpha() == b.spec_alpha()),
{
    let x: u32 = a.0;
    let y: u32 = b.0;
    assert(((x >> 24u32) as u8 == (y >> 24u32) as u8 && ((x >> 16u32) & 0xff) as u8 == ((y
        >> 16u32) & 0xff) as u8 && ((x >> 8u32) & 0xff) as u8 == ((y >> 8u32) & 0xff) as u8 && (x
        & 0xff) as u8 == (y & 0xff) as u8) ==> x == y) by (bit_vector);
}

/// Packing the channels of a colour gives the colour back.
pub proof fn lemma_pack_channels(c: RGBA)
    ensures
        pack(c.spec_red(), c.spec_green(), c.spec_blue(), c.spec_alpha()) == c.0,
{
    let v: u32 = c.0;
    assert(((((v >> 24u32) as u8) as u32) << 24u32) | (((((v >> 16u32) & 0xff) as u8) as u32)
        << 16u32) | (((((v >> 8u32) & 0xff) as u8) as u32) << 8u32) | (((v & 0xff) as u8) as u32)
        == v) by (bit_vector);
}

} // verus!
