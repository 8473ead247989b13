use raw_develop::rotate::rotate_90;

#[test]
fn rotate_two_by_two() {
    let src = [1u16, 2, 3, 4];
    let mut dst = [0u16; 4];
    rotate_90(&src, &mut dst, 2, 2);
    assert_eq!(dst, [3, 1, 4, 2]);
}

#[test]
fn rotate_four_times_gives_the_buffer_back() {
    let src: Vec<u16> = (1..=9).collect();
    let mut a = vec![0u16; 9];
    let mut b = vec![0u16; 9];
    rotate_90(&src, &mut a, 3, 3);
    assert_eq!(a, vec![7, 4, 1, 8, 5, 2, 9, 6, 3]);
    rotate_90(&a, &mut b, 3, 3);
    assert_eq!(b, vec![9, 8, 7, 6, 5, 4, 3, 2, 1]);
    rotate_90(&b, &mut a, 3, 3);
    rotate_90(&a, &mut b, 3, 3);
    assert_eq!(b, src);
}

#[test]
fn rotate_wide_buffer() {
    // 3 columns, 2 rows:
    //   1 2 3
    //   4 5 6
    let src = [1u16, 2, 3, 4, 5, 6];
    let mut dst = [0u16; 6];
    rotate_90(&src, &mut dst, 3, 2);
    // 2 columns, 3 rows:
    //   4 1
    //   5 2
    //   6 3
    assert_eq!(dst, [4, 1, 5, 2, 6, 3]);
}

#[test]
fn rotate_leaves_the_rest_of_the_target() {
    let src = [1u16, 2, 3, 4];
    let mut dst = [9u16; 6];
    rotate_90(&src, &mut dst, 2, 2);
    assert_eq!(dst, [3, 1, 4, 2, 9, 9]);
}

#[test]
fn rotate_single_row_and_empty() {
    let src = [1u16, 2, 3];
    let mut dst = [0u16; 3];
    rotate_90(&src, &mut dst, 3, 1);
    assert_eq!(dst, [1, 2, 3]);
    let mut col = [0u16; 3];
    rotate_90(&src, &mut col, 1, 3);
    assert_eq!(col, [3, 2, 1]);
    let empty: [u16; 0] = [];
    let mut keep = [5u16; 2];
    rotate_90(&empty, &mut keep, 4, 0);
    assert_eq!(keep, [5, 5]);
}
