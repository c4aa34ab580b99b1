use particle_sim::mesh::{cone_slots, cube_data, cube_data_index, sphere_grid, torus_grid};

#[test]
fn cube_tables_have_thirty_six_corners() {
    let (positions, colors, uvs, normals) = cube_data();
    assert_eq!(positions.len(), 36);
    assert_eq!(colors.len(), 36);
    assert_eq!(uvs.len(), 36);
    assert_eq!(normals.len(), 36);
    // Front face first, bottom face last.
    assert_eq!(positions[0], [-1, -1, 1]);
    assert_eq!(positions[35], [1, -1, 1]);
    assert_eq!(colors[0], [0, 0, 1]);
    assert_eq!(colors[35], [1, 0, 1]);
    assert_eq!(normals[0], [0, 0, 1]);
    assert_eq!(normals[35], [0, -1, 0]);
    assert_eq!(uvs[0], [0, 0]);
    assert_eq!(uvs[5], [1, 1]);
    // Every corner coordinate is a cube corner; every color channel a bit.
    for p in &positions {
        assert!(p.iter().all(|&c| c == -1 || c == 1));
    }
    for c in &colors {
        assert!(c.iter().all(|&v| v == 0 || v == 1));
    }
}

#[test]
fn indexed_cube_uses_eight_corners() {
    let (positions, colors, indices) = cube_data_index();
    assert_eq!(positions.len(), 8);
    assert_eq!(colors.len(), 8);
    assert_eq!(positions[0], [-1, -1, 1]);
    assert_eq!(positions[7], [-1, 1, -1]);
    assert_eq!(colors[1], [1, 0, 1]);
    assert_eq!(
        indices,
        vec![
            0, 1, 2, 2, 3, 0, 1, 5, 6, 6, 2, 1, 4, 7, 6, 6, 5, 4, 0, 3, 7, 7, 4, 0, 3, 2, 6, 6, 7,
            3, 0, 4, 5, 5, 1, 0,
        ]
    );
    assert!(indices.iter().all(|&i| i < 8));
}

#[test]
fn sphere_grid_emits_six_corners_per_quad() {
    let grid = sphere_grid(3, 4).unwrap();
    assert_eq!(grid.len(), 6 * 2 * 3);
    // The first quad: two triangles over corners (0,0),(1,0),(0,1),(1,1).
    assert_eq!(&grid[0..6], &[(0, 0), (1, 0), (0, 1), (1, 0), (1, 1), (0, 1)]);
    // The quad at ring 1, meridian 2 starts at slot 6*(1*3+2).
    assert_eq!(&grid[30..36], &[(1, 2), (2, 2), (1, 3), (2, 2), (2, 3), (1, 3)]);
}

#[test]
fn sphere_grid_degenerate_dimensions() {
    assert_eq!(sphere_grid(0, 5), None);
    assert_eq!(sphere_grid(5, 0), None);
    assert_eq!(sphere_grid(1, 5), Some(vec![]));
    assert_eq!(sphere_grid(5, 1), Some(vec![]));
}

#[test]
fn cone_slots_emit_twelve_per_segment() {
    let slots = cone_slots(3).unwrap();
    assert_eq!(slots.len(), 12 * 2);
    // Segment 1: top triangle, bottom triangle, two outer triangles.
    assert_eq!(
        &slots[12..24],
        &[
            (1, 0),
            (1, 4),
            (1, 3),
            (1, 1),
            (1, 2),
            (1, 5),
            (1, 0),
            (1, 1),
            (1, 5),
            (1, 5),
            (1, 4),
            (1, 0),
        ]
    );
}

#[test]
fn cone_slots_degenerate_counts() {
    assert_eq!(cone_slots(0), None);
    assert_eq!(cone_slots(1), Some(vec![]));
}

#[test]
fn torus_grid_emits_six_corners_per_quad() {
    let grid = torus_grid(3, 3).unwrap();
    assert_eq!(grid.len(), 6 * 2 * 2);
    assert_eq!(&grid[0..6], &[(0, 0), (1, 0), (1, 1), (1, 1), (0, 1), (0, 0)]);
    // The quad at ring 0, tube 1 starts at slot 6*(0*2+1).
    assert_eq!(&grid[6..12], &[(0, 1), (1, 1), (1, 2), (1, 2), (0, 2), (0, 1)]);
}

#[test]
fn torus_grid_degenerate_dimensions() {
    assert_eq!(torus_grid(0, 3), None);
    assert_eq!(torus_grid(3, 0), None);
    assert_eq!(torus_grid(1, 3), Some(vec![]));
}
