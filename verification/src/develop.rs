//! Development parameters and what is settled from them before a sample is
//! touched: the levels of the four tile positions, the colour matrix to go
//! by, the area to develop and the size of the result.

use vstd::prelude::*;
use crate::cfa::{Cfa, RgbBayerPattern};
use crate::geometry::{Dim2, Point, Rect};

verus! {

/// The light that a colour matrix was measured under.
#[derive(Debug, Clone, Copy, PartialEq, Eq, Structural)]
pub enum Illuminant {
    Unknown,
    Daylight,
    Fluorescent,
    Tungsten,
    Flash,
    FineWeather,
    CloudyWeather,
    Shade,
    A,
    B,
    C,
    D50,
    D55,
    D65,
    D75,
}

/// Conversion matrix for one illuminant: a row for each of up to four camera
/// channels, a column for each of X, Y and Z. `S` is the type of a sample.
#[derive(Debug, Clone, Copy)]
pub struct ColorMatrix<S> {
    pub illuminant: Illuminant,
    pub matrix: [[S; 3]; 4],
}

/// How the mosaic is made into a raster.
#[derive(Debug, Clone, Copy, PartialEq, Eq, Structural)]
pub enum DemosaicAlgorithm {
    /// Edge-aware, at full resolution.
    Ppg,
    /// Three channels at a quarter of the resolution.
    Superpixel3,
    /// Four channels at a quarter of the resolution.
    Superpixel4,
}

impl DemosaicAlgorithm {
    /// Size of the raster made of an area of size `area`.
    pub open spec fn spec_output_dim(self, area: Dim2) -> Dim2 {
        match self {
            DemosaicAlgorithm::Ppg => area,
            _ => area.spec_halved(),
        }
    }

    /// Size of the raster made of an area of size `area`.
    pub fn output_dim(self, area: Dim2) -> (d: Dim2)
        ensures
            d == self.spec_output_dim(area),
    {
        match self {
            DemosaicAlgorithm::Ppg => area,
            _ => area.halved(),
        }
    }
}

/// Parameters for raw image development. `S` is the type of a sample.
#[derive(Debug, Clone)]
pub struct DevelopParams<S> {
    pub width: usize,
    pub height: usize,
    pub color_matrices: Vec<ColorMatrix<S>>,
    pub white_level: Vec<u16>,
    pub black_level: Vec<u16>,
    pub pattern: RgbBayerPattern,
    pub cfa: Cfa,
    pub wb_coeff: [S; 4],
    pub active_area: Option<Rect>,
    pub crop_area: Option<Rect>,
    pub gamma: S,
}

/// Why a development was refused.
#[derive(Debug, Clone, Copy, PartialEq, Eq, Structural)]
pub enum DevelopError {
    /// Width or height is odd.
    OddDimensions,
    /// The black levels are neither one nor four.
    BlackLevelCount(usize),
    /// The white levels are neither one nor four.
    WhiteLevelCount(usize),
    /// The white level of tile position `slot` is not above its black level.
    WhiteNotAboveBlack { slot: usize },
    /// No colour matrix for illuminant D65 is given.
    MissingD65,
}

/// What is settled before a development starts.
#[derive(Debug, Clone, Copy, PartialEq, Eq)]
pub struct DevelopPlan {
    /// Black level of each tile position.
    pub black_level: [u16; 4],
    /// White level of each tile position.
    pub white_level: [u16; 4],
    /// Index of the colour matrix to go by.
    pub matrix: usize,
    /// The area that holds the image.
    pub active_area: Rect,
    /// Size of the result.
    pub output: Dim2,
}

/// One level stands for all four tile positions; four levels stand each for
/// its own. Other counts have no meaning.
pub open spec fn expanded(levels: Seq<u16>) -> Option<Seq<u16>> {
    if levels.len() == 1 {
        Some(seq![levels[0], levels[0], levels[0], levels[0]])
    } else if levels.len() == 4 {
        Some(levels)
    } else {
        None
    }
}

/// The level of tile position `slot`, where the levels are one or four.
pub open spec fn level_of(levels: Seq<u16>, slot: int) -> u16 {
    if levels.len() == 1 {
        levels[0]
    } else {
        levels[slot]
    }
}

/// Whether `at` is the index of the first matrix for `wanted`.
pub open spec fn is_first_for<S>(
    matrices: Seq<ColorMatrix<S>>,
    wanted: Illuminant,
    at: int,
) -> bool {
    &&& 0 <= at < matrices.len()
    &&& matrices[at].illuminant == wanted
    &&& forall|j: int| 0 <= j < at ==> (#[trigger] matrices[j]).illuminant != wanted
}

/// Whether a matrix for `wanted` is given.
pub open spec fn has_matrix_for<S>(matrices: Seq<ColorMatrix<S>>, wanted: Illuminant) -> bool {
    exists|j: int| 0 <= j < matrices.len() && (#[trigger] matrices[j]).illuminant == wanted
}

/// The first tile position whose white level is not above its black level.
pub open spec fn first_flat_slot(black: Seq<u16>, white: Seq<u16>) -> Option<int> {
    if white[0] <= black[0] {
        Some(0)
    } else if white[1] <= black[1] {
        Some(1)
    } else if white[2] <= black[2] {
        Some(2)
    } else if white[3] <= black[3] {
        Some(3)
    } else {
        None
    }
}

/// The levels of the four tile positions. `None` where `levels` holds
/// neither one level nor four.
pub fn expand_levels(levels: &Vec<u16>) -> (r: Option<[u16; 4]>)
    ensures
        match expanded(levels@) {
            Some(s) => r is Some && r->Some_0@ == s,
            None => r is None,
        },
{
    if levels.len() == 1 {
        let l: u16 = levels[0];
        let a = [l, l, l, l];
        assert(a@ =~= expanded(levels@)->Some_0);
        Some(a)
    } else if levels.len() == 4 {
        let a = [levels[0], levels[1], levels[2], levels[3]];
        assert(a@ =~= levels@);
        Some(a)
    } else {
        None
    }
}

/// Index of the first matrix for `wanted`. `None` where none is given.
pub fn find_matrix<S>(matrices: &Vec<ColorMatrix<S>>, wanted: Illuminant) -> (r: Option<usize>)
    ensures
        match r {
            Some(at) => is_first_for(matrices@, wanted, at as int),
            None => !has_matrix_for(matrices@, wanted),
        },
{
    let mut i: usize = 0;
    while i < matrices.len()
        invariant
            i <= matrices@.len(),
            forall|j: int| 0 <= j < i ==> (#[trigger] matrices@[j]).illuminant != wanted,
        decreases matrices@.len() - i,
    {
        if matrices[i].illuminant == wanted {
            return Some(i);
        }
        i += 1;
    }
    None
}

impl<S> DevelopParams<S> {
    /// The area that holds the image: the active area where one is given,
    /// else the whole sensor.
    pub open spec fn spec_area(&self) -> Rect {
        match self.active_area {
            Some(area) => area,
            None => Rect { p: Point { x: 0, y: 0 }, d: Dim2 { w: self.width, h: self.height } },
        }
    }

    /// Whether the parameters can be developed with: both sides are even,
    /// the levels of each kind are one or four, every white level is above
    /// the black level of its tile position, and a matrix for D65 is given.
    pub open spec fn valid(&self) -> bool {
        &&& self.width % 2 == 0
        &&& self.height % 2 == 0
        &&& (self.black_level@.len() == 1 || self.black_level@.len() == 4)
        &&& (self.white_level@.len() == 1 || self.white_level@.len() == 4)
        &&& forall|slot: int|
            0 <= slot < 4 ==> level_of(self.white_level@, slot) > level_of(
                self.black_level@,
                slot,
            )
        &&& has_matrix_for(self.color_matrices@, Illuminant::D65)
    }

    /// The first reason to refuse the parameters, if there is one: an odd
    /// width or height, black levels that are neither one nor four, such
    /// white levels, a tile position whose white level is not above its black
    /// level, no matrix for D65.
    pub open spec fn refusal(&self) -> Option<DevelopError> {
        if self.width % 2 != 0 || self.height % 2 != 0 {
            Some(DevelopError::OddDimensions)
        } else if expanded(self.black_level@) is None {
            Some(DevelopError::BlackLevelCount(self.black_level@.len() as usize))
        } else if expanded(self.white_level@) is None {
            Some(DevelopError::WhiteLevelCount(self.white_level@.len() as usize))
        } else if first_flat_slot(
            expanded(self.black_level@)->Some_0,
            expanded(self.white_level@)->Some_0,
        ) is Some {
            Some(
                DevelopError::WhiteNotAboveBlack {
                    slot: first_flat_slot(
                        expanded(self.black_level@)->Some_0,
                        expanded(self.white_level@)->Some_0,
                    )->Some_0 as usize,
                },
            )
        } else if !has_matrix_for(self.color_matrices@, Illuminant::D65) {
            Some(DevelopError::MissingD65)
        } else {
            None
        }
    }

    /// The area that holds the image.
    pub fn area(&self) -> (r: Rect)
        ensures
            r == self.spec_area(),
    {
        match self.active_area {
            Some(area) => area,
            None => Rect::new_with_points(Point::zero(), Point::new(self.width, self.height)),
        }
    }

    /// Checks the parameters and settles what the stages go by. Nothing is
    /// settled where a check fails: the first failure is returned.
    pub fn plan(&self, algorithm: DemosaicAlgorithm) -> (r: Result<DevelopPlan, DevelopError>)
        ensures
            r is Ok <==> self.valid(),
            match self.refusal() {
                Some(e) => r == Err::<DevelopPlan, DevelopError>(e),
                None => {
                    &&& r is Ok
                    &&& Some(r->Ok_0.black_level@) == expanded(self.black_level@)
                    &&& Some(r->Ok_0.white_level@) == expanded(self.white_level@)
                    &&& is_first_for(
                        self.color_matrices@,
                        Illuminant::D65,
                        r->Ok_0.matrix as int,
                    )
                    &&& r->Ok_0.active_area == self.spec_area()
                    &&& r->Ok_0.output == algorithm.spec_output_dim(self.spec_area().d)
                },
            },
    {
        proof {
            lemma_refused_iff_invalid(*self);
        }
        if self.width % 2 != 0 || self.height % 2 != 0 {
            return Err(DevelopError::OddDimensions);
        }
        let black_level = match expand_levels(&self.black_level) {
            Some(levels) => levels,
            None => {
                return Err(DevelopError::BlackLevelCount(self.black_level.len()));
            },
        };
        let white_level = match expand_levels(&self.white_level) {
            Some(levels) => levels,
            None => {
                return Err(DevelopError::WhiteLevelCount(self.white_level.len()));
            },
        };
        if white_level[0] <= black_level[0] {
            return Err(DevelopError::WhiteNotAboveBlack { slot: 0 });
        }
        if white_level[1] <= black_level[1] {
            return Err(DevelopError::WhiteNotAboveBlack { slot: 1 });
        }
        if white_level[2] <= black_level[2] {
            return Err(DevelopError::WhiteNotAboveBlack { slot: 2 });
        }
        if white_level[3] <= black_level[3] {
            return Err(DevelopError::WhiteNotAboveBlack { slot: 3 });
        }
        let matrix = match find_matrix(&self.color_matrices, Illuminant::D65) {
            Some(at) => at,
            None => {
                return Err(DevelopError::MissingD65);
            },
        };
        let active_area = self.area();
        Ok(
            DevelopPlan {
                black_level,
                white_level,
                matrix,
                active_area,
                output: algorithm.output_dim(active_area.d),
            },
        )
    }
}

/// Parameters are refused if and only if they are not valid.
pub proof fn lemma_refused_iff_invalid<S>(params: DevelopParams<S>)
    ensures
        params.refusal() is None <==> params.valid(),
{
    let black = params.black_level@;
    let white = params.white_level@;
    if expanded(black) is Some && expanded(white) is Some {
        let b = expanded(black)->Some_0;
        let w = expanded(white)->Some_0;
        assert forall|slot: int| 0 <= slot < 4 implies b[slot] == level_of(black, slot) && w[slot]
            == level_of(white, slot) by {}
        if first_flat_slot(b, w) is Some {
            let flat = first_flat_slot(b, w)->Some_0;
            assert(level_of(white, flat) <= level_of(black, flat));
        }
    }
}

} // verus!
