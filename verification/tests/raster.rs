use sheatmap::dataset::Dataset;
use sheatmap::extent::{resolve_extent, Bound, Overrides};
use sheatmap::grid::Grid;
use sheatmap::index::{BoundingBox, Point};
use sheatmap::kernel::Kernel;
use sheatmap::ordinal::{bits_of_ordinal, ordinal_of_bits};

fn ordinal(x: f64) -> Option<i64> {
    ordinal_of_bits(x.to_bits())
}

fn number(k: i64) -> f64 {
    f64::from_bits(bits_of_ordinal(k).unwrap())
}

fn bound(b: Bound<f64>, margin: f64) -> f64 {
    match b {
        Bound::Explicit(v) => v,
        Bound::Observed(k) => number(k) + margin,
    }
}

fn weight(kernel: Kernel, u: f64) -> f64 {
    match kernel {
        Kernel::Uniform => 0.5,
        Kernel::Triangular => 1.0 - u.abs(),
        Kernel::Quadric => (15.0 / 16.0) * (1.0 - u * u) * (1.0 - u * u),
        Kernel::Gaussian => (-0.5 * u * u).exp() / (2.0 * std::f64::consts::PI).sqrt(),
        _ => panic!("kernel not used in these scenarios"),
    }
}

/// Planar rasterization: the rows (x, y, value) in the order of emission.
fn rasterize(
    points: &[(f64, f64, f64)],
    overrides: Overrides<f64>,
    res: f64,
    radius: f64,
    kernel: Kernel,
) -> Vec<(f64, f64, f64)> {
    let mut data = Dataset::new();
    for (x, y, v) in points {
        data.push(Point { x: ordinal(*x).unwrap(), y: ordinal(*y).unwrap(), value: v.to_bits() });
    }
    let extent = resolve_extent(overrides, data.span()).unwrap();
    let xmin = bound(extent.xmin, -radius);
    let xmax = bound(extent.xmax, radius);
    let ymin = bound(extent.ymin, -radius);
    let ymax = bound(extent.ymax, radius);
    let grid = Grid {
        width: ((xmax - xmin) / res).round() as usize,
        height: ((ymax - ymin) / res).round() as usize,
    };
    let index = data.into_index();
    let mut rows = Vec::new();
    let mut scan = grid.scan();
    while let Some(cell) = scan.next() {
        let posx = xmin + (cell.column as f64) * res;
        let posy = ymin + (cell.row as f64) * res;
        let window = BoundingBox {
            x1: ordinal(posx - radius).unwrap(),
            y1: ordinal(posy - radius).unwrap(),
            x2: ordinal(posx + radius).unwrap(),
            y2: ordinal(posy + radius).unwrap(),
        };
        let mut hits = index.locate_in_envelope(window);
        hits.sort_by_key(|p| (p.x, p.y, p.value));
        let mut value = 0.0;
        for hit in hits {
            let dist_sq = (number(hit.x) - posx).powi(2) + (number(hit.y) - posy).powi(2);
            if kernel.admits(ordinal(dist_sq), ordinal(radius * radius)) {
                value += f64::from_bits(hit.value) * weight(kernel, dist_sq.sqrt() / radius);
            }
        }
        rows.push((posx, posy, value));
    }
    rows
}

fn full(xmin: f64, xmax: f64, ymin: f64, ymax: f64) -> Overrides<f64> {
    Overrides { xmin: Some(xmin), xmax: Some(xmax), ymin: Some(ymin), ymax: Some(ymax) }
}

#[test]
fn one_point_uniform_kernel_nine_cells() {
    let rows = rasterize(&[(0.0, 0.0, 3.0)], full(-1.0, 2.0, -1.0, 2.0), 1.0, 1.0, Kernel::Uniform);
    assert_eq!(
        rows,
        vec![
            (-1.0, -1.0, 0.0),
            (0.0, -1.0, 1.5),
            (1.0, -1.0, 0.0),
            (-1.0, 0.0, 1.5),
            (0.0, 0.0, 1.5),
            (1.0, 0.0, 1.5),
            (-1.0, 1.0, 0.0),
            (0.0, 1.0, 1.5),
            (1.0, 1.0, 0.0),
        ]
    );
}

#[test]
fn one_point_uniform_kernel_extent_from_minus_one_to_one() {
    // a span of 2 at resolution 1 gives two columns and two rows
    let rows = rasterize(&[(0.0, 0.0, 3.0)], full(-1.0, 1.0, -1.0, 1.0), 1.0, 1.0, Kernel::Uniform);
    assert_eq!(rows, vec![(-1.0, -1.0, 0.0), (0.0, -1.0, 1.5), (-1.0, 0.0, 1.5), (0.0, 0.0, 1.5)]);
}

#[test]
fn extent_from_the_points_is_widened_by_the_radius() {
    let none = Overrides { xmin: None, xmax: None, ymin: None, ymax: None };
    let rows = rasterize(&[(0.0, 0.0, 3.0), (2.0, 0.0, 1.0)], none, 1.0, 1.0, Kernel::Uniform);
    // x from -1 to 3 (four columns), y from -1 to 1 (two rows)
    assert_eq!(
        rows,
        vec![
            (-1.0, -1.0, 0.0),
            (0.0, -1.0, 1.5),
            (1.0, -1.0, 0.0),
            (2.0, -1.0, 0.5),
            (-1.0, 0.0, 1.5),
            (0.0, 0.0, 1.5),
            (1.0, 0.0, 2.0),
            (2.0, 0.0, 0.5),
        ]
    );
}

#[test]
fn every_cell_has_a_row_even_without_points_nearby() {
    let rows = rasterize(&[(100.0, 100.0, 1.0)], full(0.0, 3.0, 0.0, 2.0), 1.0, 1.0, Kernel::Quadric);
    assert_eq!(rows.len(), 6);
    assert!(rows.iter().all(|row| row.2 == 0.0));
    let places: Vec<(f64, f64)> = rows.iter().map(|row| (row.0, row.1)).collect();
    assert_eq!(places, vec![(0.0, 0.0), (1.0, 0.0), (2.0, 0.0), (0.0, 1.0), (1.0, 1.0), (2.0, 1.0)]);
}

#[test]
fn bounded_kernel_drops_what_the_box_overreports() {
    // the corner point lies in the query box of the centre cell, beyond the radius
    let points = [(1.0, 1.0, 8.0), (1.0, 0.0, 2.0)];
    let rows = rasterize(&points, full(0.0, 1.0, 0.0, 1.0), 1.0, 1.0, Kernel::Triangular);
    assert_eq!(rows, vec![(0.0, 0.0, 0.0)]);
    let rows = rasterize(&points, full(0.0, 1.0, 0.0, 1.0), 1.0, 2.0, Kernel::Triangular);
    assert_eq!(rows.len(), 1);
    let expected = 8.0 * (1.0 - 2.0f64.sqrt() / 2.0) + 2.0 * 0.5;
    assert!((rows[0].2 - expected).abs() < 1e-12);
}

#[test]
fn unbounded_kernel_keeps_what_the_box_reports() {
    let points = [(1.0, 1.0, 8.0)];
    let rows = rasterize(&points, full(0.0, 1.0, 0.0, 1.0), 1.0, 1.0, Kernel::Gaussian);
    let expected = 8.0 * (-1.0f64).exp() / (2.0 * std::f64::consts::PI).sqrt();
    assert_eq!(rows.len(), 1);
    assert!((rows[0].2 - expected).abs() < 1e-12);
    // a point outside the query box is never seen
    let rows = rasterize(&[(1.5, 0.0, 8.0)], full(0.0, 1.0, 0.0, 1.0), 1.0, 1.0, Kernel::Gaussian);
    assert_eq!(rows, vec![(0.0, 0.0, 0.0)]);
}

#[test]
fn point_at_the_cell_centre_has_the_weight_at_zero() {
    let rows = rasterize(&[(0.0, 0.0, 4.0)], full(0.0, 1.0, 0.0, 1.0), 1.0, 1.0, Kernel::Quadric);
    assert_eq!(rows, vec![(0.0, 0.0, 4.0 * 15.0 / 16.0)]);
}

#[test]
fn two_runs_give_the_same_rows() {
    let points: Vec<(f64, f64, f64)> = (0..200)
        .map(|i| (((i * 37) % 101) as f64 * 0.25, ((i * 53) % 89) as f64 * 0.5, 1.0 + (i % 7) as f64))
        .collect();
    let none = || Overrides { xmin: None, xmax: None, ymin: None, ymax: None };
    let first = rasterize(&points, none(), 1.5, 4.0, Kernel::Quadric);
    let second = rasterize(&points, none(), 1.5, 4.0, Kernel::Quadric);
    assert!(!first.is_empty());
    assert_eq!(first.len(), second.len());
    for (a, b) in first.iter().zip(second.iter()) {
        assert_eq!(a.0.to_bits(), b.0.to_bits());
        assert_eq!(a.1.to_bits(), b.1.to_bits());
        assert_eq!(a.2.to_bits(), b.2.to_bits());
    }
    let mut reversed = points.clone();
    reversed.reverse();
    let third = rasterize(&reversed, none(), 1.5, 4.0, Kernel::Quadric);
    assert_eq!(first, third);
}

#[test]
fn no_points_and_no_extent_is_refused() {
    let data = Dataset::new();
    let none: Overrides<f64> = Overrides { xmin: None, xmax: None, ymin: None, ymax: None };
    assert!(resolve_extent(none, data.span()).is_err());
}

#[test]
fn no_points_with_full_extent_gives_rows_of_zero() {
    let rows = rasterize(&[], full(0.0, 2.0, 0.0, 1.0), 1.0, 1.0, Kernel::Uniform);
    assert_eq!(rows, vec![(0.0, 0.0, 0.0), (1.0, 0.0, 0.0)]);
}
