use splashsurf_lib::marching_cubes::marching_cubes_lut::{
    flags_to_index, get_marching_cubes_triangulation_raw, index_to_flags, mc_case,
    marching_cubes_triangulation_iter,
};

/// A dumb integer -> bit flags conversion using format!
fn index_to_flags_by_format(index: usize) -> [bool; 8] {
    assert!(index <= 256);

    let b: Vec<char> = format!("{:08b}", index).chars().collect();
    [
        b[7] == '1',
        b[6] == '1',
        b[5] == '1',
        b[4] == '1',
        b[3] == '1',
        b[2] == '1',
        b[1] == '1',
        b[0] == '1',
    ]
}

/// The full marching cubes table, row by row.
fn marching_cubes_table() -> Vec<[i32; 16]> {
    (0..256).map(mc_case).collect()
}

#[test]
fn test_flag_conversion_roundtrip() {
    assert_eq!(marching_cubes_table().len(), 256);

    for i in 0..256 {
        let flags = index_to_flags_by_format(i);
        let index = flags_to_index(&flags);

        assert_eq!(i, index);
    }
}

#[test]
fn test_get_marching_cubes_triangulation_raw() {
    let table = marching_cubes_table();
    assert_eq!(table.len(), 256);

    for i in 0..256 {
        assert_eq!(
            table[i],
            get_marching_cubes_triangulation_raw(&index_to_flags_by_format(i))
        )
    }
}

#[test]
fn test_get_marching_cubes_triangulation_iter() {
    assert_eq!(marching_cubes_table().len(), 256);

    for i in 0..256 {
        let flags = index_to_flags_by_format(i);
        let raw = get_marching_cubes_triangulation_raw(&flags);

        let mut tri_counter = 0;
        for tri in marching_cubes_triangulation_iter(&flags) {
            let mut vec_raw = raw[3 * tri_counter..3 * tri_counter + 3].to_vec();
            let mut vec_tri = tri.to_vec();

            vec_raw.sort();
            vec_tri.sort();
            assert_eq!(vec_raw, vec_tri);
            tri_counter += 1;
        }

        assert_eq!(
            raw[3 * tri_counter],
            -1,
            "There are more triangles in the raw case then returned by the iterator!"
        )
    }
}

#[test]
fn test_marching_cubes_triangulation_iter() {
    assert!(marching_cubes_triangulation_iter(&[
        false, false, false, false, false, false, false, false
    ])
    .is_empty(),);

    assert_eq!(
        marching_cubes_triangulation_iter(&[
            true, false, false, false, false, false, false, false
        ]),
        vec![[3, 8, 0]]
    );

    assert_eq!(
        marching_cubes_triangulation_iter(&[
            false, false, true, false, true, false, false, false
        ]),
        vec![[10, 2, 1], [7, 4, 8]]
    );
}

#[test]
fn test_index_to_flags_matches_reference() {
    for i in 0..256 {
        assert_eq!(index_to_flags(i), index_to_flags_by_format(i));
        assert_eq!(flags_to_index(&index_to_flags(i)), i);
    }
}

#[test]
fn test_lut_case_five_triangulation() {
    // Corners 0 and 2 above the threshold: the raw case lists the two
    // triangles [0, 8, 3] and [1, 2, 10]; the iterator reverses each.
    let flags = [true, false, true, false, false, false, false, false];
    assert_eq!(flags_to_index(&flags), 5);
    assert_eq!(mc_case(5)[0..6], [0, 8, 3, 1, 2, 10]);
    assert_eq!(
        marching_cubes_triangulation_iter(&flags),
        vec![[3, 8, 0], [10, 2, 1]]
    );
}

#[test]
fn test_threshold_monotonicity_on_flags() {
    // Densities at the cube corners, and two thresholds. Raising the
    // threshold turns corner flags off, never on; a cube empty under the
    // lower threshold stays empty under the higher one.
    let densities: [f64; 8] = [0.1, 0.2, 0.1, 0.3, 0.2, 0.1, 0.2, 0.1];
    let low_threshold = 0.5;
    let high_threshold = 0.8;
    let flags_low: Vec<bool> = densities.iter().map(|d| *d > low_threshold).collect();
    let flags_high: Vec<bool> = densities.iter().map(|d| *d > high_threshold).collect();
    for k in 0..8 {
        assert!(!flags_high[k] || flags_low[k]);
    }
    let flags_low: [bool; 8] = flags_low.try_into().unwrap();
    let flags_high: [bool; 8] = flags_high.try_into().unwrap();
    assert!(marching_cubes_triangulation_iter(&flags_low).is_empty());
    assert!(marching_cubes_triangulation_iter(&flags_high).is_empty());
}
