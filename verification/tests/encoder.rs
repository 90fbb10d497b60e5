//! Tests drive the encoder through its public interface with coordinates
//! given as IEEE-754 single-precision bit patterns, and compare the buffers
//! it hands out against values computed with ordinary hardware floats.

use segment_pen::pen::PathOp;
use segment_pen::pen::SegmentPen;
use segment_pen::pen::encode;

/// The value the encoder stores for a raw coordinate `v` at the given
/// units-per-em: multiply by the reciprocal, in single precision.
fn scaled(units_per_em: f32, v: f32) -> f32 {
    v * units_per_em.recip()
}

fn bits_of(values: &[f32]) -> Vec<u32> {
    values.iter().map(|v| v.to_bits()).collect()
}

#[test]
fn single_move_to() {
    let mut pen = SegmentPen::new(2048.0f32.to_bits());
    pen.move_to(300.0f32.to_bits(), (-125.0f32).to_bits());
    let (commands, coords) = pen.finish();
    assert_eq!(commands, vec![1, 6]);
    // 2048 is a power of two, so the scaled values are exact.
    let expected = [
        0.0, 0.0, 0.0, 0.0, 0.146484375, -0.06103515625, //
        0.0, 0.0, 0.0, 0.0, 0.0, 0.0,
    ];
    assert_eq!(coords, bits_of(&expected));
    assert_eq!(coords[4], scaled(2048.0, 300.0).to_bits());
    assert_eq!(coords[5], scaled(2048.0, -125.0).to_bits());
}

#[test]
fn buffer_lengths() {
    let mut pen = SegmentPen::new(1000.0f32.to_bits());
    pen.move_to(1.0f32.to_bits(), 2.0f32.to_bits());
    pen.line_to(3.0f32.to_bits(), 4.0f32.to_bits());
    pen.quad_to(
        5.0f32.to_bits(),
        6.0f32.to_bits(),
        7.0f32.to_bits(),
        8.0f32.to_bits(),
    );
    pen.curve_to(
        1.0f32.to_bits(),
        2.0f32.to_bits(),
        3.0f32.to_bits(),
        4.0f32.to_bits(),
        5.0f32.to_bits(),
        6.0f32.to_bits(),
    );
    pen.close();
    let (commands, coords) = pen.finish();
    assert_eq!(commands.len(), 5 + 1);
    assert_eq!(coords.len(), 6 * (5 + 1));
    assert_eq!(commands, vec![1, 2, 3, 4, 5, 6]);
}

#[test]
fn empty_outline() {
    let pen = SegmentPen::new(1000.0f32.to_bits());
    let (commands, coords) = pen.finish();
    assert_eq!(commands, vec![6]);
    assert_eq!(coords, vec![0u32; 6]);
}

#[test]
fn scaling_halves_when_units_double() {
    // Doubling units-per-em from 1000 to 2000 halves every stored value,
    // exactly, since halving a single-precision value is exact here.
    let ops = |upem: f32| -> (Vec<i32>, Vec<u32>) {
        let mut pen = SegmentPen::new(upem.to_bits());
        pen.move_to(17.0f32.to_bits(), 250.0f32.to_bits());
        pen.quad_to(
            33.0f32.to_bits(),
            999.0f32.to_bits(),
            1.0f32.to_bits(),
            (-640.0f32).to_bits(),
        );
        pen.close();
        pen.finish()
    };
    let (commands_a, coords_a) = ops(1000.0);
    let (commands_b, coords_b) = ops(2000.0);
    assert_eq!(commands_a, commands_b);
    assert_eq!(coords_a.len(), coords_b.len());
    for i in 0..coords_a.len() {
        let a = f32::from_bits(coords_a[i]);
        let b = f32::from_bits(coords_b[i]);
        assert_eq!((a / 2.0).to_bits(), b.to_bits());
    }
}

#[test]
fn close_and_end_records_are_zero() {
    // An awkward scale factor must not leak into the zero slots.
    let mut pen = SegmentPen::new(3.0f32.to_bits());
    pen.move_to(7.0f32.to_bits(), 11.0f32.to_bits());
    pen.line_to(13.0f32.to_bits(), 17.0f32.to_bits());
    pen.close();
    let (commands, coords) = pen.finish();
    assert_eq!(commands, vec![1, 2, 5, 6]);
    for i in 12..24 {
        assert_eq!(coords[i], 0u32);
    }
}

#[test]
fn triangle_scenario() {
    let mut pen = SegmentPen::new(1000.0f32.to_bits());
    pen.move_to(500.0f32.to_bits(), 0.0f32.to_bits());
    pen.line_to(500.0f32.to_bits(), 1000.0f32.to_bits());
    pen.close();
    let (commands, coords) = pen.finish();
    assert_eq!(commands, vec![1, 2, 5, 6]);
    let expected = [
        0.0, 0.0, 0.0, 0.0, 0.5, 0.0, //
        0.0, 0.0, 0.0, 0.0, 0.5, 1.0, //
        0.0, 0.0, 0.0, 0.0, 0.0, 0.0, //
        0.0, 0.0, 0.0, 0.0, 0.0, 0.0,
    ];
    assert_eq!(coords, bits_of(&expected));
}

#[test]
fn quad_scenario() {
    let mut pen = SegmentPen::new(1000.0f32.to_bits());
    pen.quad_to(
        100.0f32.to_bits(),
        100.0f32.to_bits(),
        200.0f32.to_bits(),
        200.0f32.to_bits(),
    );
    let (commands, coords) = pen.finish();
    assert_eq!(commands, vec![3, 6]);
    let expected = [
        0.1, 0.1, 0.0, 0.0, 0.2, 0.2, //
        0.0, 0.0, 0.0, 0.0, 0.0, 0.0,
    ];
    assert_eq!(coords, bits_of(&expected));
}

#[test]
fn curve_scenario() {
    let mut pen = SegmentPen::new(1000.0f32.to_bits());
    pen.curve_to(
        10.0f32.to_bits(),
        10.0f32.to_bits(),
        20.0f32.to_bits(),
        20.0f32.to_bits(),
        30.0f32.to_bits(),
        30.0f32.to_bits(),
    );
    let (commands, coords) = pen.finish();
    assert_eq!(commands, vec![4, 6]);
    // Multiplying by the rounded reciprocal of 1000 in single precision
    // lands one unit in the last place away from the decimal literals 0.01,
    // 0.02 and 0.03, so the expectation is computed the same way.
    let expected = [
        scaled(1000.0, 10.0),
        scaled(1000.0, 10.0),
        scaled(1000.0, 20.0),
        scaled(1000.0, 20.0),
        scaled(1000.0, 30.0),
        scaled(1000.0, 30.0),
        0.0,
        0.0,
        0.0,
        0.0,
        0.0,
        0.0,
    ];
    assert_eq!(coords, bits_of(&expected));
    for i in 0..6 {
        let value = f32::from_bits(coords[i]);
        let loose = [0.01, 0.01, 0.02, 0.02, 0.03, 0.03][i];
        assert!((value - loose).abs() < 1e-8);
    }
}

#[test]
fn encode_matches_incremental() {
    let upem = 1234.0f32.to_bits();
    let ops = vec![
        PathOp::MoveTo(5.0f32.to_bits(), 6.0f32.to_bits()),
        PathOp::QuadTo(
            7.0f32.to_bits(),
            8.0f32.to_bits(),
            9.0f32.to_bits(),
            10.0f32.to_bits(),
        ),
        PathOp::CurveTo(
            1.0f32.to_bits(),
            2.0f32.to_bits(),
            3.0f32.to_bits(),
            4.0f32.to_bits(),
            5.0f32.to_bits(),
            6.0f32.to_bits(),
        ),
        PathOp::LineTo(11.0f32.to_bits(), 12.0f32.to_bits()),
        PathOp::Close,
    ];
    let (commands_a, coords_a) = encode(upem, &ops);

    let mut pen = SegmentPen::new(upem);
    pen.move_to(5.0f32.to_bits(), 6.0f32.to_bits());
    pen.quad_to(
        7.0f32.to_bits(),
        8.0f32.to_bits(),
        9.0f32.to_bits(),
        10.0f32.to_bits(),
    );
    pen.curve_to(
        1.0f32.to_bits(),
        2.0f32.to_bits(),
        3.0f32.to_bits(),
        4.0f32.to_bits(),
        5.0f32.to_bits(),
        6.0f32.to_bits(),
    );
    pen.line_to(11.0f32.to_bits(), 12.0f32.to_bits());
    pen.close();
    let (commands_b, coords_b) = pen.finish();

    assert_eq!(commands_a, commands_b);
    assert_eq!(coords_a, coords_b);
    assert_eq!(commands_a, vec![1, 3, 4, 2, 5, 6]);
}

#[test]
fn scaled_values_reflect_the_scale() {
    // The stored value is the scaled coordinate, not the raw one.
    let mut pen = SegmentPen::new(1000.0f32.to_bits());
    pen.move_to(500.0f32.to_bits(), 0.0f32.to_bits());
    let (_, coords) = pen.finish();
    assert_ne!(coords[4], 500.0f32.to_bits());
    assert_eq!(coords[4], 0.5f32.to_bits());
}
