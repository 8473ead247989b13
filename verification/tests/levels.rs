use raw_develop::levels::correct_levels;

fn level(v: f32, black: f32, white: f32) -> f32 {
    let d = v - black;
    (if d.is_sign_negative() { 0.0 } else { d }) / (white - black)
}

#[test]
fn one_tile_without_black_level() {
    let mut raw = [10.0f32, 20.0, 30.0, 40.0];
    correct_levels(&mut raw, 2, 2, &[0.0; 4], &[255.0; 4], level);
    assert_eq!(raw, [10.0 / 255.0, 20.0 / 255.0, 30.0 / 255.0, 40.0 / 255.0]);
}

#[test]
fn one_tile_with_black_level() {
    let mut raw = [10.0f32, 20.0, 30.0, 40.0];
    correct_levels(&mut raw, 2, 2, &[10.0; 4], &[255.0; 4], level);
    assert_eq!(raw, [0.0, 10.0 / 245.0, 20.0 / 245.0, 30.0 / 245.0]);
}

#[test]
fn below_black_is_zero_and_above_white_is_kept() {
    let mut raw = [5.0f32, 300.0, 10.0, 255.0];
    correct_levels(&mut raw, 2, 2, &[10.0; 4], &[255.0; 4], level);
    assert_eq!(raw, [0.0, 290.0 / 245.0, 0.0, 1.0]);
}

#[test]
fn every_sample_gets_the_levels_of_its_tile_position() {
    // the "correction" records which levels were handed over with a sample
    let mut raw: Vec<u32> = (0..16).collect();
    let black = [0u32, 1, 2, 3];
    let white = [10u32, 11, 12, 13];
    correct_levels(&mut raw, 4, 4, &black, &white, |v: u32, b: u32, w: u32| v * 10000 + b * 100 + w);
    let expected: Vec<u32> = (0..16u32)
        .map(|i| {
            let slot = ((i / 4) % 2) * 2 + (i % 4) % 2;
            i * 10000 + slot * 100 + 10 + slot
        })
        .collect();
    assert_eq!(raw, expected);
    assert_eq!(raw[0], 10);
    assert_eq!(raw[1], 10111);
    assert_eq!(raw[4], 40212);
    assert_eq!(raw[5], 50313);
    assert_eq!(raw[10], 100010);
}

#[test]
fn samples_behind_the_last_band_stay() {
    let mut raw: Vec<u32> = vec![1; 11];
    correct_levels(&mut raw, 2, 4, &[0; 4], &[0; 4], |v: u32, _b: u32, _w: u32| v + 1);
    assert_eq!(raw, vec![2, 2, 2, 2, 2, 2, 2, 2, 1, 1, 1]);
}
