use tokamak::grid::{build_positive_x_grid, mirror_grid};
use tokamak::lut::{LUT_LEN, LUT_X_MAX};
use tokamak::table::CurveTable;

#[test]
fn half_grid_is_repaired_in_order() {
    // 5 stays; 5 is bumped to 6; 3 is bumped to 7; 100 is held below the endpoint.
    let grid = build_positive_x_grid(&vec![5, 5, 3, 100], 10);
    assert_eq!(grid, Some(vec![0, 5, 6, 7, 9, 10]));
}

#[test]
fn half_grid_without_interior_points() {
    assert_eq!(build_positive_x_grid(&vec![], 10), Some(vec![0, 10]));
}

#[test]
fn half_grid_that_cannot_be_repaired_is_refused() {
    // The second point is bumped to 10 and held back to 9, a repeat.
    assert_eq!(build_positive_x_grid(&vec![9, 9], 10), None);
    // A zero endpoint leaves no room at all.
    assert_eq!(build_positive_x_grid(&vec![], 0), None);
}

#[test]
fn mirror_grid_is_symmetric_and_shifted() {
    assert_eq!(mirror_grid(&vec![0, 2, 5], 5), vec![0, 3, 5, 7, 10]);
    assert_eq!(mirror_grid(&vec![0], 7), vec![7]);
}

#[test]
fn baked_positions_mirror_around_the_centre() {
    let t = CurveTable::standard().expect("the baked table is valid");
    let centre = LUT_X_MAX / 2;
    for i in 0..LUT_LEN {
        assert_eq!(t.x_at(i) - centre, centre - t.x_at(LUT_LEN - 1 - i));
    }
    let half: Vec<u32> = (LUT_LEN / 2..LUT_LEN).map(|i| t.x_at(i) - centre).collect();
    let full = mirror_grid(&half, centre);
    let xs: Vec<u32> = (0..LUT_LEN).map(|i| t.x_at(i)).collect();
    assert_eq!(full, xs);
}
