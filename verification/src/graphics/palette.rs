//! Shades and the palettes that map color numbers to them.

use vstd::prelude::*;

verus! {

/// The colors that can be displayed by the DMG.
#[derive(Debug, Clone, Copy, PartialEq, Eq, Structural)]
pub enum Shade {
    White,
    LightGray,
    DarkGray,
    Black,
}

/// The shade of a color number (0-3).
pub open spec fn shade_of(n: int) -> Shade {
    if n == 0 {
        Shade::White
    } else if n == 1 {
        Shade::LightGray
    } else if n == 2 {
        Shade::DarkGray
    } else {
        Shade::Black
    }
}

/// The color number (0-3) of a shade.
pub open spec fn shade_number(s: Shade) -> int {
    match s {
        Shade::White => 0,
        Shade::LightGray => 1,
        Shade::DarkGray => 2,
        Shade::Black => 3,
    }
}

/// The RGBA pixel of a shade, in the Game Boy Pocket palette.
pub open spec fn rgba_of(s: Shade) -> [u8; 4] {
    match s {
        Shade::White => [0xFF, 0xFF, 0xFF, 0xFF],
        Shade::LightGray => [0xA9, 0xA9, 0xA9, 0xFF],
        Shade::DarkGray => [0x54, 0x54, 0x54, 0xFF],
        Shade::Black => [0x00, 0x00, 0x00, 0xFF],
    }
}

impl Shade {
    /// Returns the RGBA pixel that represents the color of a shade.
    pub fn to_rgba(&self) -> (r: [u8; 4])
        ensures
            r == rgba_of(*self),
    {
        match *self {
            Shade::White => [0xFF, 0xFF, 0xFF, 0xFF],
            Shade::LightGray => [0xA9, 0xA9, 0xA9, 0xFF],
            Shade::DarkGray => [0x54, 0x54, 0x54, 0xFF],
            Shade::Black => [0x00, 0x00, 0x00, 0xFF],
        }
    }

    /// The shade of a color number.
    pub fn from_number(n: u8) -> (r: Shade)
        requires
            n <= 3,
        ensures
            r == shade_of(n as int),
    {
        match n {
            0 => Shade::White,
            1 => Shade::LightGray,
            2 => Shade::DarkGray,
            _ => Shade::Black,
        }
    }

    /// The color number of the shade.
    pub fn number(&self) -> (r: u8)
        ensures
            r == shade_number(*self),
    {
        match *self {
            Shade::White => 0,
            Shade::LightGray => 1,
            Shade::DarkGray => 2,
            Shade::Black => 3,
        }
    }
}

impl Default for Shade {
    fn default() -> (r: Shade)
        ensures
            r == Shade::White,
    {
        Shade::White
    }
}

/// The four shades held in a palette register, color 0 in the low two bits.
pub open spec fn shades_of_register(reg: u8) -> Seq<Shade> {
    seq![
        shade_of(reg as int % 4),
        shade_of((reg as int / 4) % 4),
        shade_of((reg as int / 16) % 4),
        shade_of((reg as int / 64) % 4),
    ]
}

/// The register byte of four shades, color 0 in the low two bits.
pub open spec fn register_of_shades(s: Seq<Shade>) -> u8 {
    (shade_number(s[0]) + 4 * shade_number(s[1]) + 16 * shade_number(s[2]) + 64 * shade_number(
        s[3],
    )) as u8
}

/// The four shades held in a palette register, as an array.
pub open spec fn shades_array(reg: u8) -> [Shade; 4] {
    [
        shade_of(reg as int % 4),
        shade_of((reg as int / 4) % 4),
        shade_of((reg as int / 16) % 4),
        shade_of((reg as int / 64) % 4),
    ]
}

fn shades_from_register(reg: u8) -> (r: [Shade; 4])
    ensures
        r@ == shades_of_register(reg),
        r == shades_array(reg),
{
    let r = [
        Shade::from_number(reg % 4),
        Shade::from_number((reg / 4) % 4),
        Shade::from_number((reg / 16) % 4),
        Shade::from_number((reg / 64) % 4),
    ];
    assert(r@ =~= shades_of_register(reg));
    r
}

fn shades_to_register(shades: &[Shade; 4]) -> (r: u8)
    ensures
        r == register_of_shades(shades@),
{
    shades[0].number() + 4 * shades[1].number() + 16 * shades[2].number() + 64 * shades[3].number()
}

/// Maps background and window tile color numbers to shades.
#[derive(Debug, Clone, Copy, Eq)]
pub struct BackgroundPalette(pub [Shade; 4]);

impl BackgroundPalette {
    pub fn new(shades: [Shade; 4]) -> (r: Self)
        ensures
            r.0 == shades,
    {
        BackgroundPalette(shades)
    }

    /// The shade of a color number.
    pub fn get(&self, index: u8) -> (r: Shade)
        requires
            index < 4,
        ensures
            r == self.0@[index as int],
    {
        self.0[index as usize]
    }

    /// The palette as the `BGP` register byte.
    pub fn as_byte(&self) -> (r: u8)
        ensures
            r == register_of_shades(self.0@),
    {
        shades_to_register(&self.0)
    }

    /// The palette held by a `BGP` register byte.
    pub fn from_byte(byte: u8) -> (r: Self)
        ensures
            r.0@ == shades_of_register(byte),
            r.0 == shades_array(byte),
    {
        BackgroundPalette(shades_from_register(byte))
    }
}

impl PartialEq for BackgroundPalette {
    fn eq(&self, other: &Self) -> (r: bool) {
        let r = self.0[0] == other.0[0] && self.0[1] == other.0[1] && self.0[2] == other.0[2]
            && self.0[3] == other.0[3];
        proof {
            if r {
                assert(self.0@ =~= other.0@);
            }
        }
        r
    }
}

impl vstd::std_specs::cmp::PartialEqSpecImpl for BackgroundPalette {
    open spec fn obeys_eq_spec() -> bool {
        true
    }

    open spec fn eq_spec(&self, other: &Self) -> bool {
        self.0@ == other.0@
    }
}

impl Default for BackgroundPalette {
    fn default() -> (r: Self)
        ensures
            r.0@ == seq![Shade::White, Shade::White, Shade::White, Shade::White],
    {
        let r = BackgroundPalette([Shade::White, Shade::White, Shade::White, Shade::White]);
        assert(r.0@ =~= seq![Shade::White, Shade::White, Shade::White, Shade::White]);
        r
    }
}

impl From<u8> for BackgroundPalette {
    /// The palette held by a register byte.
    fn from(byte: u8) -> (r: Self) {
        BackgroundPalette::from_byte(byte)
    }
}

impl vstd::std_specs::convert::FromSpecImpl<u8> for BackgroundPalette {
    open spec fn obeys_from_spec() -> bool {
        true
    }

    open spec fn from_spec(byte: u8) -> Self {
        BackgroundPalette(shades_array(byte))
    }
}

impl From<BackgroundPalette> for u8 {
    /// The register byte of a palette.
    fn from(palette: BackgroundPalette) -> (r: u8) {
        palette.as_byte()
    }
}

impl vstd::std_specs::convert::FromSpecImpl<BackgroundPalette> for u8 {
    open spec fn obeys_from_spec() -> bool {
        true
    }

    open spec fn from_spec(palette: BackgroundPalette) -> u8 {
        register_of_shades(palette.0@)
    }
}

/// Maps sprite color numbers to shades. Color 0 is always transparent.
#[derive(Debug, Clone, Copy, Eq)]
pub struct SpritePalette(pub [Shade; 4]);

impl SpritePalette {
    pub fn new(shades: [Shade; 4]) -> (r: Self)
        ensures
            r.0 == shades,
    {
        SpritePalette(shades)
    }

    /// The shade of a color number, or `None` for the transparent color 0.
    pub fn get(&self, index: u8) -> (r: Option<Shade>)
        requires
            index < 4,
        ensures
            r == (if index == 0 { None } else { Some(self.0@[index as int]) }),
    {
        if index == 0 {
            None
        } else {
            Some(self.0[index as usize])
        }
    }

    /// The palette as an `OBP` register byte.
    pub fn as_byte(&self) -> (r: u8)
        ensures
            r == register_of_shades(self.0@),
    {
        shades_to_register(&self.0)
    }

    /// The palette held by an `OBP` register byte.
    pub fn from_byte(byte: u8) -> (r: Self)
        ensures
            r.0@ == shades_of_register(byte),
            r.0 == shades_array(byte),
    {
        SpritePalette(shades_from_register(byte))
    }
}

impl PartialEq for SpritePalette {
    fn eq(&self, other: &Self) -> (r: bool) {
        let r = self.0[0] == other.0[0] && self.0[1] == other.0[1] && self.0[2] == other.0[2]
            && self.0[3] == other.0[3];
        proof {
            if r {
                assert(self.0@ =~= other.0@);
            }
        }
        r
    }
}

impl vstd::std_specs::cmp::PartialEqSpecImpl for SpritePalette {
    open spec fn obeys_eq_spec() -> bool {
        true
    }

    open spec fn eq_spec(&self, other: &Self) -> bool {
        self.0@ == other.0@
    }
}

impl Default for SpritePalette {
    fn default() -> (r: Self)
        ensures
            r.0@ == seq![Shade::White, Shade::White, Shade::White, Shade::White],
    {
        let r = SpritePalette([Shade::White, Shade::White, Shade::White, Shade::White]);
        assert(r.0@ =~= seq![Shade::White, Shade::White, Shade::White, Shade::White]);
        r
    }
}

impl From<u8> for SpritePalette {
    /// The palette held by a register byte.
    fn from(byte: u8) -> (r: Self) {
        SpritePalette::from_byte(byte)
    }
}

impl vstd::std_specs::convert::FromSpecImpl<u8> for SpritePalette {
    open spec fn obeys_from_spec() -> bool {
        true
    }

    open spec fn from_spec(byte: u8) -> Self {
        SpritePalette(shades_array(byte))
    }
}

impl From<SpritePalette> for u8 {
    /// The register byte of a palette.
    fn from(palette: SpritePalette) -> (r: u8) {
        palette.as_byte()
    }
}

impl vstd::std_specs::convert::FromSpecImpl<SpritePalette> for u8 {
    open spec fn obeys_from_spec() -> bool {
        true
    }

    open spec fn from_spec(palette: SpritePalette) -> u8 {
        register_of_shades(palette.0@)
    }
}

/// Reading back the register a palette was written from gives the same byte.
pub proof fn lemma_palette_register_roundtrip(byte: u8)
    ensures
        register_of_shades(shades_of_register(byte)) == byte,
{
}

} // verus!
