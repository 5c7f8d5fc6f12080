use crsm7::grid::Matrix7D;

#[test]
fn test_new_grid_is_filled() {
    let m = Matrix7D::new(3, 0.0f64);
    assert_eq!(m.size, 3);
    assert_eq!(m.data.len(), 3 * 3 * 7);
    assert_eq!(m.get(2, 1, 6), 0.0);
}

#[test]
fn test_set_then_get() {
    let mut m = Matrix7D::new(2, 0.0f64);
    m.set(1, 0, 3, 2.5);
    assert_eq!(m.get(1, 0, 3), 2.5);
    assert_eq!(m.get(0, 1, 3), 0.0);
    assert_eq!(m.get(1, 0, 4), 0.0);
}

#[test]
fn test_grown_preserves_prior_entries() {
    let mut m = Matrix7D::new(2, 0.0f64);
    m.set(0, 0, 0, 1.0);
    m.set(0, 1, 2, -3.5);
    m.set(1, 1, 6, 7.25);
    let g = m.grown(3, 0.0);
    assert_eq!(g.size, 3);
    assert_eq!(g.data.len(), 3 * 3 * 7);
    assert_eq!(g.get(0, 0, 0), 1.0);
    assert_eq!(g.get(0, 1, 2), -3.5);
    assert_eq!(g.get(1, 1, 6), 7.25);
    assert_eq!(g.get(2, 2, 0), 0.0);
    assert_eq!(g.get(0, 2, 5), 0.0);
}

#[test]
fn test_grown_from_empty() {
    let m = Matrix7D::new(0, 0.0f64);
    let g = m.grown(1, 0.0);
    assert_eq!(g.size, 1);
    assert_eq!(g.data.len(), 7);
    assert_eq!(g.get(0, 0, 0), 0.0);
}
