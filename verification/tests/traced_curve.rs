use roulette_plot::roulette::{Gearing, Stroke, STEPS_PER_REV};

/// The samples of one traversal about the origin, in mm, as the sampling plan
/// lays them out.
fn trace(rolling_radius_mm: f64, pen_radius_mm: f64, inner: u32, outer: u32) -> Vec<(Stroke, f64, f64)> {
    let gearing = Gearing::new(inner, outer).unwrap();
    let ratio = inner as f64 / outer as f64;
    let outer_mm = rolling_radius_mm / ratio;
    let pen_to_outer = pen_radius_mm / outer_mm;
    let mut points = Vec::new();
    let mut step: u64 = 0;
    while let Some(stroke) = gearing.stroke_at(step) {
        let t = 2.0 * std::f64::consts::PI * step as f64 / STEPS_PER_REV as f64;
        let x = outer_mm * ((1.0 - ratio) * t.cos() + pen_to_outer * ((1.0 - ratio) / ratio * t).cos());
        let y = outer_mm * ((1.0 - ratio) * t.sin() - pen_to_outer * ((1.0 - ratio) / ratio * t).sin());
        points.push((stroke, x, y));
        step += 1;
    }
    points
}

fn radial_maxima(points: &[(Stroke, f64, f64)]) -> usize {
    // The last sample repeats the first, so the cycle is all but the last.
    let radius: Vec<f64> = points[..points.len() - 1].iter().map(|p| (p.1 * p.1 + p.2 * p.2).sqrt()).collect();
    let n = radius.len();
    let mut count = 0;
    for i in 0..n {
        let before = radius[(i + n - 1) % n];
        let after = radius[(i + 1) % n];
        if radius[i] > before && radius[i] >= after {
            count += 1;
        }
    }
    count
}

#[test]
fn seven_in_twelve_curve_closes_with_twelve_cusps() {
    let points = trace(17.1, 11.4, 7, 12);
    assert_eq!(points.len(), 7 * 40 + 1);
    let (first, last) = (points[0], points[points.len() - 1]);
    assert_eq!(first.0, Stroke::MoveTo);
    assert_eq!(last.0, Stroke::Draw);
    assert!((first.1 - last.1).abs() < 1e-9);
    assert!((first.2 - last.2).abs() < 1e-9);
    assert_eq!(radial_maxima(&points), 12);
}

#[test]
fn coprime_gears_close_the_curve() {
    for (inner, outer) in [(1u32, 2u32), (2, 3), (3, 5), (5, 6), (7, 12), (5, 8), (11, 13), (1, 1)] {
        let points = trace(30.0, 16.5, inner, outer);
        assert_eq!(points.len() as u64, inner as u64 * 40 + 1);
        let (first, last) = (points[0], points[points.len() - 1]);
        assert!((first.1 - last.1).abs() < 1e-9, "{}:{}", inner, outer);
        assert!((first.2 - last.2).abs() < 1e-9, "{}:{}", inner, outer);
    }
}

#[test]
fn coprime_gears_do_not_close_early() {
    for (inner, outer) in [(2u32, 3u32), (3, 5), (5, 6), (7, 12), (5, 8)] {
        let points = trace(30.0, 16.5, inner, outer);
        let first = points[0];
        for p in &points[1..points.len() - 1] {
            let gap = ((p.1 - first.1).powi(2) + (p.2 - first.2).powi(2)).sqrt();
            assert!(gap > 1e-6, "{}:{}", inner, outer);
        }
    }
}

#[test]
fn plot_radius_is_the_farthest_reach() {
    for (rolling, pen, inner, outer) in [(17.1f64, 11.4f64, 7u32, 12u32), (30.0, 16.5, 5, 6), (30.0, 30.0, 5, 6)] {
        let ratio = inner as f64 / outer as f64;
        let plot_radius = rolling / ratio - rolling + pen;
        let points = trace(rolling, pen, inner, outer);
        let farthest = points.iter().map(|p| (p.1 * p.1 + p.2 * p.2).sqrt()).fold(0.0f64, f64::max);
        assert!((farthest - plot_radius).abs() < 1e-9);
        assert!((points[0].1 - plot_radius).abs() < 1e-9);
        assert!(points[0].2.abs() < 1e-9);
    }
}
