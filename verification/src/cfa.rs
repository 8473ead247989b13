//! Colour filter arrays: which colour filter lies over which photosite.

use vstd::prelude::*;

verus! {

/// The colour of one filter of the array.
#[derive(Debug, Clone, Copy, PartialEq, Eq, Structural)]
pub enum CfaColor {
    Red,
    Green,
    Blue,
    Cyan,
    Magenta,
    Yellow,
    Emerald,
    Unknown,
}

impl CfaColor {
    /// Whether the colour is red, green or blue.
    pub open spec fn spec_is_rgb(self) -> bool {
        self == CfaColor::Red || self == CfaColor::Green || self == CfaColor::Blue
    }

    /// Whether the colour is red, green or blue.
    pub fn is_rgb(self) -> (b: bool)
        ensures
            b == self.spec_is_rgb(),
    {
        match self {
            CfaColor::Red | CfaColor::Green | CfaColor::Blue => true,
            _ => false,
        }
    }

    /// The letter that stands for the colour in a pattern's name.
    pub open spec fn spec_letter(self) -> char {
        match self {
            CfaColor::Red => 'R',
            CfaColor::Green => 'G',
            CfaColor::Blue => 'B',
            CfaColor::Cyan => 'C',
            CfaColor::Magenta => 'M',
            CfaColor::Yellow => 'Y',
            CfaColor::Emerald => 'E',
            CfaColor::Unknown => 'U',
        }
    }

    /// The letter that stands for the colour in a pattern's name.
    pub fn letter(self) -> (c: char)
        ensures
            c == self.spec_letter(),
    {
        match self {
            CfaColor::Red => 'R',
            CfaColor::Green => 'G',
            CfaColor::Blue => 'B',
            CfaColor::Cyan => 'C',
            CfaColor::Magenta => 'M',
            CfaColor::Yellow => 'Y',
            CfaColor::Emerald => 'E',
            CfaColor::Unknown => 'U',
        }
    }
}

/// The four arrangements of a red, two green and a blue filter in which the
/// greens lie on a diagonal.
#[derive(Debug, Clone, Copy, PartialEq, Eq, Structural)]
pub enum RgbBayerPattern {
    RGGB,
    BGGR,
    GBRG,
    GRBG,
}

impl RgbBayerPattern {
    /// The colours of the arrangement: top left, top right, bottom left,
    /// bottom right.
    pub open spec fn tile(self) -> Seq<CfaColor> {
        match self {
            RgbBayerPattern::RGGB => seq![
                CfaColor::Red,
                CfaColor::Green,
                CfaColor::Green,
                CfaColor::Blue,
            ],
            RgbBayerPattern::BGGR => seq![
                CfaColor::Blue,
                CfaColor::Green,
                CfaColor::Green,
                CfaColor::Red,
            ],
            RgbBayerPattern::GBRG => seq![
                CfaColor::Green,
                CfaColor::Blue,
                CfaColor::Red,
                CfaColor::Green,
            ],
            RgbBayerPattern::GRBG => seq![
                CfaColor::Green,
                CfaColor::Red,
                CfaColor::Blue,
                CfaColor::Green,
            ],
        }
    }

    /// The arrangement's name.
    pub fn name(self) -> (n: &'static str)
        ensures
            n@ == letters_of(self.tile()),
    {
        proof {
            reveal_strlit("RGGB");
            reveal_strlit("BGGR");
            reveal_strlit("GBRG");
            reveal_strlit("GRBG");
        }
        let n = match self {
            RgbBayerPattern::RGGB => "RGGB",
            RgbBayerPattern::BGGR => "BGGR",
            RgbBayerPattern::GBRG => "GBRG",
            RgbBayerPattern::GRBG => "GRBG",
        };
        assert(n@ =~= letters_of(self.tile()));
        n
    }

    /// Tile position of the red filter.
    pub open spec fn red_slot(self) -> int {
        match self {
            RgbBayerPattern::RGGB => 0,
            RgbBayerPattern::BGGR => 3,
            RgbBayerPattern::GBRG => 2,
            RgbBayerPattern::GRBG => 1,
        }
    }

    /// Tile position of the blue filter.
    pub open spec fn blue_slot(self) -> int {
        3 - self.red_slot()
    }

    /// Tile position of the first green filter.
    pub open spec fn first_green_slot(self) -> int {
        match self {
            RgbBayerPattern::RGGB | RgbBayerPattern::BGGR => 1,
            RgbBayerPattern::GBRG | RgbBayerPattern::GRBG => 0,
        }
    }

    /// Tile position of the second green filter.
    pub open spec fn second_green_slot(self) -> int {
        3 - self.first_green_slot()
    }
}

/// The slots of an arrangement hold the colours they are named after.
pub proof fn lemma_slots_match_tile(pattern: RgbBayerPattern)
    ensures
        pattern.tile()[pattern.red_slot()] == CfaColor::Red,
        pattern.tile()[pattern.blue_slot()] == CfaColor::Blue,
        pattern.tile()[pattern.first_green_slot()] == CfaColor::Green,
        pattern.tile()[pattern.second_green_slot()] == CfaColor::Green,
        pattern.first_green_slot() < pattern.second_green_slot(),
{
}

/// A shift by an even number of columns and rows leaves an array as it is.
pub proof fn lemma_even_shift_is_identity(slot: int, x: int, y: int)
    requires
        0 <= slot < 4,
        0 <= x,
        0 <= y,
        x % 2 == 0,
        y % 2 == 0,
    ensures
        shifted_slot(slot, x, y) == slot,
{
}

/// A colour filter array of two by two filters, repeated over the sensor.
/// `tile` holds the colours top left, top right, bottom left, bottom right.
#[derive(Debug, Clone, Copy, PartialEq, Eq)]
pub struct Cfa {
    pub tile: [CfaColor; 4],
}

impl View for Cfa {
    type V = Seq<CfaColor>;

    open spec fn view(&self) -> Seq<CfaColor> {
        self.tile@
    }
}

/// Position of the first filter of colour `color` in `tile`, if it has one.
pub open spec fn first_slot_of(tile: Seq<CfaColor>, color: CfaColor) -> Option<int> {
    if tile[0] == color {
        Some(0)
    } else if tile[1] == color {
        Some(1)
    } else if tile[2] == color {
        Some(2)
    } else if tile[3] == color {
        Some(3)
    } else {
        None
    }
}

/// The arrangement that `tile` is, if it is one of the four.
pub open spec fn bayer_pattern_of(tile: Seq<CfaColor>) -> Option<RgbBayerPattern> {
    if tile == RgbBayerPattern::RGGB.tile() {
        Some(RgbBayerPattern::RGGB)
    } else if tile == RgbBayerPattern::BGGR.tile() {
        Some(RgbBayerPattern::BGGR)
    } else if tile == RgbBayerPattern::GBRG.tile() {
        Some(RgbBayerPattern::GBRG)
    } else if tile == RgbBayerPattern::GRBG.tile() {
        Some(RgbBayerPattern::GRBG)
    } else {
        None
    }
}

/// Tile position that lies `x` columns to the right of and `y` rows below
/// position `slot`, the tile being repeated in both directions.
pub open spec fn shifted_slot(slot: int, x: int, y: int) -> int {
    ((slot / 2 + y) % 2) * 2 + (slot % 2 + x) % 2
}

/// The letters of the four filters of `tile`.
pub open spec fn letters_of(tile: Seq<CfaColor>) -> Seq<char> {
    Seq::new(4, |i: int| tile[i].spec_letter())
}

/// `String::from_iter` of the standard library, on four characters: the
/// string made of them, in their order.
#[verifier::external_body]
fn string_of(letters: [char; 4]) -> (s: String)
    ensures
        s@ == letters@,
{
    String::from_iter(letters)
}

/// Whether every filter of `tile` is red, green or blue.
pub open spec fn tile_is_rgb(tile: Seq<CfaColor>) -> bool {
    forall|i: int| 0 <= i < 4 ==> (#[trigger] tile[i]).spec_is_rgb()
}

impl Cfa {
    pub fn new(tile: [CfaColor; 4]) -> (cfa: Cfa)
        ensures
            cfa@ == tile@,
    {
        Cfa { tile }
    }

    /// The array of an arrangement.
    pub fn from_pattern(pattern: RgbBayerPattern) -> (cfa: Cfa)
        ensures
            cfa@ == pattern.tile(),
    {
        let tile = match pattern {
            RgbBayerPattern::RGGB => [CfaColor::Red, CfaColor::Green, CfaColor::Green, CfaColor::Blue],
            RgbBayerPattern::BGGR => [CfaColor::Blue, CfaColor::Green, CfaColor::Green, CfaColor::Red],
            RgbBayerPattern::GBRG => [CfaColor::Green, CfaColor::Blue, CfaColor::Red, CfaColor::Green],
            RgbBayerPattern::GRBG => [CfaColor::Green, CfaColor::Red, CfaColor::Blue, CfaColor::Green],
        };
        assert(tile@ =~= pattern.tile());
        Cfa { tile }
    }

    /// The colour of the filter over the photosite at `row`, `col`.
    pub fn color_at(&self, row: usize, col: usize) -> (c: CfaColor)
        ensures
            c == self@[(row % 2) * 2 + col % 2],
    {
        self.tile[(row % 2) * 2 + col % 2]
    }

    /// The array as seen from the photosite at column `x`, row `y`: its
    /// filter at a position is this array's filter `x` columns to the right
    /// and `y` rows below.
    pub fn shift(&self, x: usize, y: usize) -> (cfa: Cfa)
        ensures
            cfa@.len() == 4,
            forall|slot: int|
                0 <= slot < 4 ==> #[trigger] cfa@[slot] == self@[shifted_slot(
                    slot,
                    x as int,
                    y as int,
                )],
    {
        let dx: usize = x % 2;
        let dy: usize = y % 2;
        let t = &self.tile;
        let tile = [
            t[dy * 2 + dx],
            t[dy * 2 + (1 - dx)],
            t[(1 - dy) * 2 + dx],
            t[(1 - dy) * 2 + (1 - dx)],
        ];
        Cfa { tile }
    }

    /// The array's name: the letters of its four filters, such as `RGGB`.
    pub fn name(&self) -> (n: String)
        ensures
            n@ == letters_of(self@),
    {
        let letters = [
            self.tile[0].letter(),
            self.tile[1].letter(),
            self.tile[2].letter(),
            self.tile[3].letter(),
        ];
        assert(letters@ =~= letters_of(self@));
        string_of(letters)
    }

    /// Whether the array holds red, green and blue filters only.
    pub fn is_rgb(&self) -> (b: bool)
        ensures
            b == tile_is_rgb(self@),
    {
        self.tile[0].is_rgb() && self.tile[1].is_rgb() && self.tile[2].is_rgb()
            && self.tile[3].is_rgb()
    }

    /// The arrangement that the array is, if it is one of the four.
    pub fn bayer_pattern(&self) -> (p: Option<RgbBayerPattern>)
        ensures
            p == bayer_pattern_of(self@),
    {
        let t = &self.tile;
        let p = if t[0] == CfaColor::Red && t[1] == CfaColor::Green && t[2] == CfaColor::Green
            && t[3] == CfaColor::Blue {
            Some(RgbBayerPattern::RGGB)
        } else if t[0] == CfaColor::Blue && t[1] == CfaColor::Green && t[2] == CfaColor::Green
            && t[3] == CfaColor::Red {
            Some(RgbBayerPattern::BGGR)
        } else if t[0] == CfaColor::Green && t[1] == CfaColor::Blue && t[2] == CfaColor::Red
            && t[3] == CfaColor::Green {
            Some(RgbBayerPattern::GBRG)
        } else if t[0] == CfaColor::Green && t[1] == CfaColor::Red && t[2] == CfaColor::Blue
            && t[3] == CfaColor::Green {
            Some(RgbBayerPattern::GRBG)
        } else {
            None
        };
        proof {
            let s = self@;
            assert(s.len() == 4);
            assert(s == RgbBayerPattern::RGGB.tile() <==> (s[0] == CfaColor::Red && s[1]
                == CfaColor::Green && s[2] == CfaColor::Green && s[3] == CfaColor::Blue)) by {
                if s[0] == CfaColor::Red && s[1] == CfaColor::Green && s[2] == CfaColor::Green
                    && s[3] == CfaColor::Blue {
                    assert(s =~= RgbBayerPattern::RGGB.tile());
                }
            }
            assert(s == RgbBayerPattern::BGGR.tile() <==> (s[0] == CfaColor::Blue && s[1]
                == CfaColor::Green && s[2] == CfaColor::Green && s[3] == CfaColor::Red)) by {
                if s[0] == CfaColor::Blue && s[1] == CfaColor::Green && s[2] == CfaColor::Green
                    && s[3] == CfaColor::Red {
                    assert(s =~= RgbBayerPattern::BGGR.tile());
                }
            }
            assert(s == RgbBayerPattern::GBRG.tile() <==> (s[0] == CfaColor::Green && s[1]
                == CfaColor::Blue && s[2] == CfaColor::Red && s[3] == CfaColor::Green)) by {
                if s[0] == CfaColor::Green && s[1] == CfaColor::Blue && s[2] == CfaColor::Red
                    && s[3] == CfaColor::Green {
                    assert(s =~= RgbBayerPattern::GBRG.tile());
                }
            }
            assert(s == RgbBayerPattern::GRBG.tile() <==> (s[0] == CfaColor::Green && s[1]
                == CfaColor::Red && s[2] == CfaColor::Blue && s[3] == CfaColor::Green)) by {
                if s[0] == CfaColor::Green && s[1] == CfaColor::Red && s[2] == CfaColor::Blue
                    && s[3] == CfaColor::Green {
                    assert(s =~= RgbBayerPattern::GRBG.tile());
                }
            }
        }
        p
    }
}

/// Which colour each plane of a raster holds, in the planes' order.
#[derive(Debug, Clone, PartialEq, Eq)]
pub struct PlaneColor {
    pub colors: Vec<CfaColor>,
}

impl View for PlaneColor {
    type V = Seq<CfaColor>;

    open spec fn view(&self) -> Seq<CfaColor> {
        self.colors@
    }
}

impl PlaneColor {
    pub fn new(colors: Vec<CfaColor>) -> (planes: PlaneColor)
        ensures
            planes@ == colors@,
    {
        PlaneColor { colors }
    }

    /// The number of planes.
    pub fn plane_count(&self) -> (n: usize)
        ensures
            n == self@.len(),
    {
        self.colors.len()
    }

    /// The colour of plane `plane`.
    pub fn plane_color(&self, plane: usize) -> (c: CfaColor)
        requires
            plane < self@.len(),
        ensures
            c == self@[plane as int],
    {
        self.colors[plane]
    }

    /// Position of the first filter of colour `color` in the array's tile,
    /// if it has one.
    pub fn cfa_index(cfa: &Cfa, color: CfaColor) -> (slot: Option<usize>)
        ensures
            match first_slot_of(cfa@, color) {
                Some(at) => slot == Some(at as usize) && 0 <= at < 4,
                None => slot is None,
            },
    {
        if cfa.tile[0] == color {
            Some(0)
        } else if cfa.tile[1] == color {
            Some(1)
        } else if cfa.tile[2] == color {
            Some(2)
        } else if cfa.tile[3] == color {
            Some(3)
        } else {
            None
        }
    }
}

} // verus!
