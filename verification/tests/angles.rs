use lib::fixed::FRACUNIT;
use lib::geom::{R_PointToAngle, R_PointToAngle2, SlopeDiv};

/// An arc tangent table rising evenly to 45 degrees at its last step.
fn tantoangle() -> Vec<u32> {
    (0..2049u32).map(|i| i * 262144).collect()
}

#[test]
fn slope_steps_are_capped() {
    assert_eq!(SlopeDiv(5, 100), 2048);
    assert_eq!(SlopeDiv(512, 1024), 1024);
    assert_eq!(SlopeDiv(2048, 1024), 2048);
    assert_eq!(SlopeDiv(0, 4096), 0);
}

#[test]
fn angles_of_the_axes_and_diagonals() {
    let t = tantoangle();
    let f = FRACUNIT;
    assert_eq!(R_PointToAngle(10 * f, 0, 0, 0, &t), 0);
    assert_eq!(R_PointToAngle(0, 10 * f, 0, 0, &t), 0x3fff_ffff);
    assert_eq!(R_PointToAngle(-10 * f, 0, 0, 0, &t), 0x7fff_ffff);
    assert_eq!(R_PointToAngle(0, -10 * f, 0, 0, &t), 0xc000_0000);
    assert_eq!(R_PointToAngle(10 * f, 10 * f, 0, 0, &t), 0x1fff_ffff);
    assert_eq!(R_PointToAngle(-10 * f, -10 * f, 0, 0, &t), 0x9fff_ffff);
    assert_eq!(R_PointToAngle(10 * f, -10 * f, 0, 0, &t), 0xe000_0000);
    assert_eq!(R_PointToAngle(-10 * f, 10 * f, 0, 0, &t), 0x6000_0000);
    // A shallow slope of a half: step 1024 of the table.
    assert_eq!(R_PointToAngle(20 * f, 10 * f, 0, 0, &t), 1024 * 262144);
}

#[test]
fn angle_between_two_points() {
    let t = tantoangle();
    let f = FRACUNIT;
    assert_eq!(R_PointToAngle2(5 * f, 5 * f, 5 * f, 5 * f, &t), 0);
    assert_eq!(R_PointToAngle2(5 * f, 5 * f, 15 * f, 5 * f, &t), 0);
    assert_eq!(R_PointToAngle2(5 * f, 5 * f, 5 * f, 15 * f, &t), 0x3fff_ffff);
}
