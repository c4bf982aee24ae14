use eliar_core::initial::{initial_amplitudes, initial_traits, weight_matrix, HUNDREDTHS, TRAIT_COUNT};

#[test]
fn weight_matrix_rows() {
    let m = weight_matrix();
    assert_eq!(m.len(), 12);
    assert_eq!(m[0], vec![40, 20, 10, 8, 7, 5, 5, 5, 5, 4, 3, 3]);
    for (i, row) in m.iter().enumerate().skip(1) {
        assert_eq!(row.len(), TRAIT_COUNT);
        for (j, w) in row.iter().enumerate() {
            assert_eq!(*w, if i == j { 30 } else { 10 });
        }
    }
    assert_eq!(m[11][11], 30);
    assert_eq!(m[11][0], 10);
}

#[test]
fn amplitudes_front_loaded_and_decaying() {
    let a = initial_amplitudes();
    assert_eq!(a, vec![50, 20, 10, 5, 5, 5, 2, 2, 1, 1, 1, 1]);
    assert!(a.windows(2).all(|w| w[1] <= w[0]));
}

#[test]
fn trait_defaults() {
    let t = initial_traits();
    assert_eq!(t, vec![99, 98, 95, 90, 90, 95, 99, 90, 95, 92, 94, 96]);
    assert!(t.iter().all(|v| (90..=99).contains(v)));
}

#[test]
fn hundredths_are_the_decimal_values() {
    let h = HUNDREDTHS as f64;
    assert_eq!(40.0 / h, 0.4);
    assert_eq!(7.0 / h, 0.07);
    assert_eq!(5.0 / h, 0.05);
    assert_eq!(3.0 / h, 0.03);
    assert_eq!(99.0 / h, 0.99);
    assert_eq!(98.0 / h, 0.98);
    assert_eq!(92.0 / h, 0.92);
    assert_eq!(1.0 / h, 0.01);
}
