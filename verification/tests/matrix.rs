//! Flattening square grids for uniform upload keeps every component, in
//! order: what goes up as a flat sequence can be read back as the same
//! values in the same places.

use uni_gl::{flatten_2x2, flatten_3x3, flatten_4x4};

#[test]
fn identity_4x4_round_trips() {
    let identity: [[f32; 4]; 4] = [
        [1.0, 0.0, 0.0, 0.0],
        [0.0, 1.0, 0.0, 0.0],
        [0.0, 0.0, 1.0, 0.0],
        [0.0, 0.0, 0.0, 1.0],
    ];
    let flat = flatten_4x4(&identity);
    assert_eq!(
        flat,
        vec![
            1.0, 0.0, 0.0, 0.0, 0.0, 1.0, 0.0, 0.0, 0.0, 0.0, 1.0, 0.0, 0.0, 0.0, 0.0, 1.0,
        ]
    );
    // Reading the flat sequence back row after row yields the same 16
    // values in the same order.
    let mut read_back = [[0f32; 4]; 4];
    for row in 0..4 {
        for col in 0..4 {
            read_back[row][col] = flat[row * 4 + col];
        }
    }
    assert_eq!(read_back, identity);
}

#[test]
fn distinct_components_keep_their_places_4x4() {
    let mut m = [[0f32; 4]; 4];
    for row in 0..4 {
        for col in 0..4 {
            m[row][col] = (row * 4 + col) as f32;
        }
    }
    let flat = flatten_4x4(&m);
    for (i, v) in flat.iter().enumerate() {
        assert_eq!(*v, i as f32);
    }
}

#[test]
fn smaller_grids_flatten_in_order() {
    let m2: [[f32; 2]; 2] = [[1.5, 2.5], [3.5, 4.5]];
    assert_eq!(flatten_2x2(&m2), vec![1.5, 2.5, 3.5, 4.5]);

    let m3 = [[1, 2, 3], [4, 5, 6], [7, 8, 9]];
    assert_eq!(flatten_3x3(&m3), vec![1, 2, 3, 4, 5, 6, 7, 8, 9]);
}
