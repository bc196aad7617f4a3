use webgl_grid::grid::{generate_grid, GridError, GridMesh};

fn grid(rows: usize, cols: usize) -> GridMesh {
    match generate_grid(rows, cols) {
        Ok(g) => g,
        Err(e) => panic!("grid {}x{} refused: {:?}", rows, cols, e),
    }
}

fn point(g: &GridMesh, i: usize, j: usize) -> (f32, f32, f32) {
    let p = 3 * (i * g.cols + j);
    let d = g.denominator as f32;
    (
        g.positions[p] as f32 / d,
        g.positions[p + 1] as f32 / d,
        g.positions[p + 2] as f32 / d,
    )
}

#[test]
fn square_grid_counts() {
    for n in [2usize, 3, 10, 50] {
        let g = grid(n, n);
        assert_eq!(g.positions.len(), 3 * n * n);
        assert_eq!(g.indices.len() / 2, 2 * n * (n - 1));
        assert_eq!(g.indices.len() % 2, 0);
    }
}

#[test]
fn indices_below_point_count() {
    for (rows, cols) in [(10usize, 10usize), (3, 5), (5, 3), (2, 2), (256, 256)] {
        let g = grid(rows, cols);
        assert!(g.indices.iter().all(|&k| (k as usize) < rows * cols));
    }
}

#[test]
fn link_differences() {
    let g = grid(10, 10);
    let n1 = 9 * 10;
    let pairs: Vec<(u16, u16)> = g.indices.chunks(2).map(|c| (c[0], c[1])).collect();
    assert_eq!(pairs.len(), 180);
    for (k, &(a, b)) in pairs.iter().enumerate() {
        if k < n1 {
            assert_eq!(b - a, 10);
        } else {
            assert_eq!(b - a, 1);
        }
    }
}

#[test]
fn rectangular_links_cover_every_neighbour_once() {
    let (rows, cols) = (3usize, 5usize);
    let g = grid(rows, cols);
    let mut pairs: Vec<(u16, u16)> = g.indices.chunks(2).map(|c| (c[0], c[1])).collect();
    let mut expected = Vec::new();
    for i in 0..rows - 1 {
        for j in 0..cols {
            expected.push(((i * cols + j) as u16, ((i + 1) * cols + j) as u16));
        }
    }
    for i in 0..rows {
        for j in 0..cols - 1 {
            expected.push(((i * cols + j) as u16, (i * cols + j + 1) as u16));
        }
    }
    assert_eq!(pairs, expected);
    pairs.sort();
    pairs.dedup();
    assert_eq!(pairs.len(), (rows - 1) * cols + rows * (cols - 1));
}

#[test]
fn corner_points_of_ten_by_ten() {
    let g = grid(10, 10);
    assert_eq!(g.denominator, 18);
    assert_eq!(&g.positions[0..3], &[-9, 9, 0]);
    assert_eq!(&g.positions[297..300], &[9, -9, 0]);
    assert_eq!(point(&g, 0, 0), (-0.5, 0.5, 0.0));
    assert_eq!(point(&g, 9, 9), (0.5, -0.5, 0.0));
}

#[test]
fn interior_point_spacing() {
    let g = grid(3, 3);
    assert_eq!(g.positions, vec![-2, 2, 0, 0, 2, 0, 2, 2, 0, -2, 0, 0, 0, 0, 0, 2, 0, 0, -2, -2, 0, 0, -2, 0, 2, -2, 0]);
    assert_eq!(g.indices, vec![0, 3, 1, 4, 2, 5, 3, 6, 4, 7, 5, 8, 0, 1, 1, 2, 3, 4, 4, 5, 6, 7, 7, 8]);
}

#[test]
fn too_few_points() {
    assert_eq!(generate_grid(1, 10).err(), Some(GridError::TooFewPoints));
    assert_eq!(generate_grid(10, 1).err(), Some(GridError::TooFewPoints));
    assert_eq!(generate_grid(0, 0).err(), Some(GridError::TooFewPoints));
}

#[test]
fn too_many_points() {
    assert_eq!(generate_grid(257, 256).err(), Some(GridError::TooManyPoints));
    assert_eq!(generate_grid(usize::MAX, 2).err(), Some(GridError::TooManyPoints));
    let g = grid(2, 32768);
    assert_eq!(g.indices.iter().copied().max(), Some(65535));
}
