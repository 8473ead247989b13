use raw_develop::cfa::{Cfa, CfaColor, PlaneColor, RgbBayerPattern};
use raw_develop::geometry::{Dim2, Point, Rect};
use raw_develop::superpixel::{Color2D, DemosaicError, Superpixel3Channel, Superpixel4Channel};

fn mean(a: f32, b: f32) -> f32 {
    (a + b) / 2.0
}

fn mosaic(w: usize, h: usize) -> Vec<f32> {
    (0..w * h).map(|v| v as f32).collect()
}

fn full(w: usize, h: usize) -> Rect {
    Rect::new(Point::zero(), Dim2::new(w, h))
}

fn rgb() -> PlaneColor {
    PlaneColor::new(vec![CfaColor::Red, CfaColor::Green, CfaColor::Blue])
}

fn rgbe() -> PlaneColor {
    PlaneColor::new(vec![CfaColor::Red, CfaColor::Green, CfaColor::Blue, CfaColor::Emerald])
}

fn rgbe_cfa() -> Cfa {
    Cfa::new([CfaColor::Red, CfaColor::Green, CfaColor::Emerald, CfaColor::Blue])
}

#[test]
fn three_channel_rggb_four_by_four() {
    let pixels = mosaic(4, 4);
    let cfa = Cfa::from_pattern(RgbBayerPattern::RGGB);
    let out = Superpixel3Channel::new()
        .demosaic(&pixels, Dim2::new(4, 4), &cfa, &rgb(), full(4, 4), mean)
        .unwrap();
    assert_eq!(out.width, 2);
    assert_eq!(out.height, 2);
    assert_eq!(
        out.data,
        vec![[0.0, 2.5, 5.0], [2.0, 4.5, 7.0], [8.0, 10.5, 13.0], [10.0, 12.5, 15.0]]
    );
    for (k, px) in out.data.iter().enumerate() {
        let top = (k / 2) * 8 + (k % 2) * 2;
        assert_eq!(px[1], (pixels[top + 1] + pixels[top + 4]) / 2.0);
    }
}

#[test]
fn three_channel_other_arrangements() {
    let pixels = vec![1.0f32, 2.0, 4.0, 8.0];
    let dim = Dim2::new(2, 2);
    let run = |p: RgbBayerPattern| {
        Superpixel3Channel::new()
            .demosaic(&pixels, dim, &Cfa::from_pattern(p), &rgb(), full(2, 2), mean)
            .unwrap()
            .into_inner()
    };
    assert_eq!(run(RgbBayerPattern::RGGB), vec![[1.0, 3.0, 8.0]]);
    assert_eq!(run(RgbBayerPattern::BGGR), vec![[8.0, 3.0, 1.0]]);
    assert_eq!(run(RgbBayerPattern::GBRG), vec![[4.0, 4.5, 2.0]]);
    assert_eq!(run(RgbBayerPattern::GRBG), vec![[2.0, 4.5, 4.0]]);
}

#[test]
fn three_channel_hands_the_greens_over_in_order() {
    let pixels = vec![1u32, 2, 4, 8];
    let out = Superpixel3Channel::new()
        .demosaic(
            &pixels,
            Dim2::new(2, 2),
            &Cfa::from_pattern(RgbBayerPattern::GBRG),
            &rgb(),
            full(2, 2),
            |a: u32, b: u32| a * 100 + b,
        )
        .unwrap();
    assert_eq!(out.data, vec![[4, 108, 2]]);
}

#[test]
fn odd_sides_drop_the_trailing_row_and_column() {
    let pixels = mosaic(5, 3);
    let cfa = Cfa::from_pattern(RgbBayerPattern::RGGB);
    let out = Superpixel3Channel::new()
        .demosaic(&pixels, Dim2::new(5, 3), &cfa, &rgb(), full(5, 3), mean)
        .unwrap();
    assert_eq!((out.width, out.height), (2, 1));
    assert_eq!(out.data, vec![[0.0, 3.0, 6.0], [2.0, 5.0, 8.0]]);
    let four = Superpixel4Channel::new()
        .demosaic(&pixels, Dim2::new(5, 3), &rgbe_cfa(), &rgbe(), full(5, 3))
        .unwrap();
    assert_eq!((four.width, four.height), (2, 1));
    assert_eq!(four.data, vec![[0.0, 1.0, 6.0, 5.0], [2.0, 3.0, 8.0, 7.0]]);
}

#[test]
fn empty_image_gives_empty_raster() {
    let pixels: Vec<f32> = Vec::new();
    let cfa = Cfa::from_pattern(RgbBayerPattern::RGGB);
    let out = Superpixel3Channel::new()
        .demosaic(&pixels, Dim2::new(0, 0), &cfa, &rgb(), full(0, 0), mean)
        .unwrap();
    assert_eq!((out.width, out.height, out.data.len()), (0, 0, 0));
}

#[test]
fn three_channel_refusals() {
    let pixels = mosaic(4, 4);
    let dim = Dim2::new(4, 4);
    let bayer = Cfa::from_pattern(RgbBayerPattern::RGGB);
    let s = Superpixel3Channel::new();
    let shifted = Rect::new(Point::new(2, 0), dim);
    assert_eq!(
        s.demosaic(&pixels, dim, &bayer, &rgb(), shifted, mean),
        Err(DemosaicError::PartialRegion)
    );
    assert_eq!(
        s.demosaic(&pixels, dim, &bayer, &rgb(), full(2, 2), mean),
        Err(DemosaicError::PartialRegion)
    );
    // the region is looked at before the planes
    assert_eq!(
        s.demosaic(&pixels, dim, &bayer, &rgbe(), shifted, mean),
        Err(DemosaicError::PartialRegion)
    );
    assert_eq!(
        s.demosaic(&pixels, dim, &bayer, &rgbe(), full(4, 4), mean),
        Err(DemosaicError::PlaneCount { expected: 3, given: 4 })
    );
    assert_eq!(
        s.demosaic(&pixels, dim, &rgbe_cfa(), &rgb(), full(4, 4), mean),
        Err(DemosaicError::NotRgb)
    );
    let stripes = Cfa::new([CfaColor::Red, CfaColor::Green, CfaColor::Blue, CfaColor::Green]);
    assert_eq!(
        s.demosaic(&pixels, dim, &stripes, &rgb(), full(4, 4), mean),
        Err(DemosaicError::NotBayer)
    );
}

#[test]
fn four_channel_keeps_every_sample() {
    let pixels = mosaic(4, 4);
    let out = Superpixel4Channel::new()
        .demosaic(&pixels, Dim2::new(4, 4), &rgbe_cfa(), &rgbe(), full(4, 4))
        .unwrap();
    assert_eq!((out.width, out.height), (2, 2));
    assert_eq!(
        out.data,
        vec![
            [0.0, 1.0, 5.0, 4.0],
            [2.0, 3.0, 7.0, 6.0],
            [8.0, 9.0, 13.0, 12.0],
            [10.0, 11.0, 15.0, 14.0]
        ]
    );
}

#[test]
fn four_channel_with_three_planes_is_refused() {
    let pixels = mosaic(4, 4);
    let r = Superpixel4Channel::new().demosaic(
        &pixels,
        Dim2::new(4, 4),
        &Cfa::from_pattern(RgbBayerPattern::RGGB),
        &rgb(),
        full(4, 4),
    );
    assert_eq!(r, Err(DemosaicError::PlaneCount { expected: 4, given: 3 }));
}

#[test]
fn four_channel_refusals() {
    let pixels = mosaic(2, 2);
    let dim = Dim2::new(2, 2);
    let s = Superpixel4Channel::new();
    assert_eq!(
        s.demosaic(&pixels, dim, &rgbe_cfa(), &rgbe(), Rect::new(Point::new(0, 1), dim)),
        Err(DemosaicError::PartialRegion)
    );
    let cmyg = PlaneColor::new(vec![
        CfaColor::Red,
        CfaColor::Green,
        CfaColor::Yellow,
        CfaColor::Emerald,
    ]);
    assert_eq!(
        s.demosaic(&pixels, dim, &rgbe_cfa(), &cmyg, full(2, 2)),
        Err(DemosaicError::ColorNotInPattern { plane: 2 })
    );
}

#[test]
fn cfa_names_and_colors() {
    let cfa = Cfa::from_pattern(RgbBayerPattern::GRBG);
    assert_eq!(cfa.name(), "GRBG");
    assert_eq!(rgbe_cfa().name(), "RGEB");
    assert_eq!(RgbBayerPattern::GBRG.name(), "GBRG");
    assert_eq!(Cfa::from_pattern(RgbBayerPattern::BGGR).name(), RgbBayerPattern::BGGR.name());
    assert!(cfa.is_rgb());
    assert!(!rgbe_cfa().is_rgb());
    assert_eq!(cfa.bayer_pattern(), Some(RgbBayerPattern::GRBG));
    assert_eq!(rgbe_cfa().bayer_pattern(), None);
    assert_eq!(cfa.color_at(0, 0), CfaColor::Green);
    assert_eq!(cfa.color_at(3, 4), CfaColor::Blue);
    assert_eq!(cfa.color_at(2, 5), CfaColor::Red);
    assert_eq!(PlaneColor::cfa_index(&cfa, CfaColor::Green), Some(0));
    assert_eq!(PlaneColor::cfa_index(&cfa, CfaColor::Blue), Some(2));
    assert_eq!(PlaneColor::cfa_index(&cfa, CfaColor::Cyan), None);
    assert_eq!(rgbe().plane_count(), 4);
    assert_eq!(rgbe().plane_color(3), CfaColor::Emerald);
}

#[test]
fn shifted_array() {
    let cfa = Cfa::from_pattern(RgbBayerPattern::RGGB);
    assert_eq!(cfa.shift(0, 0), cfa);
    assert_eq!(cfa.shift(4, 2), cfa);
    assert_eq!(cfa.shift(1, 0), Cfa::from_pattern(RgbBayerPattern::GRBG));
    assert_eq!(cfa.shift(0, 1), Cfa::from_pattern(RgbBayerPattern::GBRG));
    assert_eq!(cfa.shift(3, 5), Cfa::from_pattern(RgbBayerPattern::BGGR));
    assert_eq!(rgbe_cfa().shift(1, 1).name(), "BEGR");
    assert_eq!(cfa.shift(1, 0).color_at(0, 0), cfa.color_at(0, 1));
}

#[test]
fn flat_samples_are_channel_interleaved() {
    let r = Color2D::new_with(vec![[1u8, 2, 3], [4, 5, 6]], 1, 2).unwrap();
    assert_eq!(r.flatten(), vec![1, 2, 3, 4, 5, 6]);
    let none: Color2D<u8, 4> = Color2D::new_with(Vec::new(), 0, 7).unwrap();
    assert_eq!(none.flatten(), Vec::<u8>::new());
}

#[test]
fn raster_of_given_pixels() {
    let r = Color2D::new_with(vec![[1u8, 2, 3], [4, 5, 6]], 2, 1).unwrap();
    assert_eq!((r.width, r.height), (2, 1));
    assert_eq!(r.into_inner(), vec![[1, 2, 3], [4, 5, 6]]);
    assert!(Color2D::new_with(vec![[1u8, 2, 3]], 2, 1).is_none());
    assert!(Color2D::new_with(vec![[1u8, 2, 3]], usize::MAX, 2).is_none());
}

#[test]
fn geometry_values() {
    let r = Rect::new_with_points(Point::new(2, 3), Point::new(10, 7));
    assert_eq!(r, Rect::new(Point::new(2, 3), Dim2::new(8, 4)));
    assert!(!r.covers(Dim2::new(8, 4)));
    assert!(full(8, 4).covers(Dim2::new(8, 4)));
    assert_eq!(Dim2::new(7, 4).halved(), Dim2::new(3, 2));
}
