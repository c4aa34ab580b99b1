//! The integer structure of the procedural meshes: the unit cube's
//! tables, pinned exactly by their spec sequences, and the corner grids
//! of the sphere, cone and torus nets. The curved surfaces themselves are
//! floating point and live with the caller; what is verified here is
//! which grid corner each emitted vertex slot refers to, and how many
//! slots there are.

use vstd::prelude::*;

verus! {

/// The 36 corner positions of the unit cube's twelve triangles, one face
/// at a time: front, right, back, left, top, bottom.
pub open spec fn cube_positions() -> Seq<Seq<i8>> {
    seq![
        seq![-1i8, -1i8, 1i8], seq![1i8, -1i8, 1i8], seq![-1i8, 1i8, 1i8],
        seq![-1i8, 1i8, 1i8], seq![1i8, -1i8, 1i8], seq![1i8, 1i8, 1i8],
        seq![1i8, -1i8, 1i8], seq![1i8, -1i8, -1i8], seq![1i8, 1i8, 1i8],
        seq![1i8, 1i8, 1i8], seq![1i8, -1i8, -1i8], seq![1i8, 1i8, -1i8],
        seq![1i8, -1i8, -1i8], seq![-1i8, -1i8, -1i8], seq![1i8, 1i8, -1i8],
        seq![1i8, 1i8, -1i8], seq![-1i8, -1i8, -1i8], seq![-1i8, 1i8, -1i8],
        seq![-1i8, -1i8, -1i8], seq![-1i8, -1i8, 1i8], seq![-1i8, 1i8, -1i8],
        seq![-1i8, 1i8, -1i8], seq![-1i8, -1i8, 1i8], seq![-1i8, 1i8, 1i8],
        seq![-1i8, 1i8, 1i8], seq![1i8, 1i8, 1i8], seq![-1i8, 1i8, -1i8],
        seq![-1i8, 1i8, -1i8], seq![1i8, 1i8, 1i8], seq![1i8, 1i8, -1i8],
        seq![-1i8, -1i8, -1i8], seq![1i8, -1i8, -1i8], seq![-1i8, -1i8, 1i8],
        seq![-1i8, -1i8, 1i8], seq![1i8, -1i8, -1i8], seq![1i8, -1i8, 1i8],
    ]
}

/// One color per corner: a constant color per face.
pub open spec fn cube_colors() -> Seq<Seq<i8>> {
    seq![
        seq![0i8, 0i8, 1i8], seq![0i8, 0i8, 1i8], seq![0i8, 0i8, 1i8],
        seq![0i8, 0i8, 1i8], seq![0i8, 0i8, 1i8], seq![0i8, 0i8, 1i8],
        seq![1i8, 0i8, 0i8], seq![1i8, 0i8, 0i8], seq![1i8, 0i8, 0i8],
        seq![1i8, 0i8, 0i8], seq![1i8, 0i8, 0i8], seq![1i8, 0i8, 0i8],
        seq![1i8, 1i8, 0i8], seq![1i8, 1i8, 0i8], seq![1i8, 1i8, 0i8],
        seq![1i8, 1i8, 0i8], seq![1i8, 1i8, 0i8], seq![1i8, 1i8, 0i8],
        seq![0i8, 1i8, 1i8], seq![0i8, 1i8, 1i8], seq![0i8, 1i8, 1i8],
        seq![0i8, 1i8, 1i8], seq![0i8, 1i8, 1i8], seq![0i8, 1i8, 1i8],
        seq![0i8, 1i8, 0i8], seq![0i8, 1i8, 0i8], seq![0i8, 1i8, 0i8],
        seq![0i8, 1i8, 0i8], seq![0i8, 1i8, 0i8], seq![0i8, 1i8, 0i8],
        seq![1i8, 0i8, 1i8], seq![1i8, 0i8, 1i8], seq![1i8, 0i8, 1i8],
        seq![1i8, 0i8, 1i8], seq![1i8, 0i8, 1i8], seq![1i8, 0i8, 1i8],
    ]
}

/// One texture coordinate per corner: the same quad pattern on each face.
pub open spec fn cube_uvs() -> Seq<Seq<i8>> {
    seq![
        seq![0i8, 0i8], seq![1i8, 0i8], seq![0i8, 1i8], seq![0i8, 1i8], seq![1i8, 0i8], seq![1i8, 1i8],
        seq![0i8, 0i8], seq![1i8, 0i8], seq![0i8, 1i8], seq![0i8, 1i8], seq![1i8, 0i8], seq![1i8, 1i8],
        seq![0i8, 0i8], seq![1i8, 0i8], seq![0i8, 1i8], seq![0i8, 1i8], seq![1i8, 0i8], seq![1i8, 1i8],
        seq![0i8, 0i8], seq![1i8, 0i8], seq![0i8, 1i8], seq![0i8, 1i8], seq![1i8, 0i8], seq![1i8, 1i8],
        seq![0i8, 0i8], seq![1i8, 0i8], seq![0i8, 1i8], seq![0i8, 1i8], seq![1i8, 0i8], seq![1i8, 1i8],
        seq![0i8, 0i8], seq![1i8, 0i8], seq![0i8, 1i8], seq![0i8, 1i8], seq![1i8, 0i8], seq![1i8, 1i8],
    ]
}

/// One normal per corner: the outward axis of its face.
pub open spec fn cube_normals() -> Seq<Seq<i8>> {
    seq![
        seq![0i8, 0i8, 1i8], seq![0i8, 0i8, 1i8], seq![0i8, 0i8, 1i8],
        seq![0i8, 0i8, 1i8], seq![0i8, 0i8, 1i8], seq![0i8, 0i8, 1i8],
        seq![1i8, 0i8, 0i8], seq![1i8, 0i8, 0i8], seq![1i8, 0i8, 0i8],
        seq![1i8, 0i8, 0i8], seq![1i8, 0i8, 0i8], seq![1i8, 0i8, 0i8],
        seq![0i8, 0i8, -1i8], seq![0i8, 0i8, -1i8], seq![0i8, 0i8, -1i8],
        seq![0i8, 0i8, -1i8], seq![0i8, 0i8, -1i8], seq![0i8, 0i8, -1i8],
        seq![-1i8, 0i8, 0i8], seq![-1i8, 0i8, 0i8], seq![-1i8, 0i8, 0i8],
        seq![-1i8, 0i8, 0i8], seq![-1i8, 0i8, 0i8], seq![-1i8, 0i8, 0i8],
        seq![0i8, 1i8, 0i8], seq![0i8, 1i8, 0i8], seq![0i8, 1i8, 0i8],
        seq![0i8, 1i8, 0i8], seq![0i8, 1i8, 0i8], seq![0i8, 1i8, 0i8],
        seq![0i8, -1i8, 0i8], seq![0i8, -1i8, 0i8], seq![0i8, -1i8, 0i8],
        seq![0i8, -1i8, 0i8], seq![0i8, -1i8, 0i8], seq![0i8, -1i8, 0i8],
    ]
}

/// The vertex data of the unit cube as a raw triangle list: positions,
/// colors, texture coordinates and normals, 36 corners each.
pub fn cube_data() -> (r: (Vec<[i8; 3]>, Vec<[i8; 3]>, Vec<[i8; 2]>, Vec<[i8; 3]>))
    ensures
        r.0.deep_view() == cube_positions(),
        r.1.deep_view() == cube_colors(),
        r.2.deep_view() == cube_uvs(),
        r.3.deep_view() == cube_normals(),
{
    let positions: Vec<[i8; 3]> = vec![
        [-1, -1, 1], [1, -1, 1], [-1, 1, 1],
        [-1, 1, 1], [1, -1, 1], [1, 1, 1],
        [1, -1, 1], [1, -1, -1], [1, 1, 1],
        [1, 1, 1], [1, -1, -1], [1, 1, -1],
        [1, -1, -1], [-1, -1, -1], [1, 1, -1],
        [1, 1, -1], [-1, -1, -1], [-1, 1, -1],
        [-1, -1, -1], [-1, -1, 1], [-1, 1, -1],
        [-1, 1, -1], [-1, -1, 1], [-1, 1, 1],
        [-1, 1, 1], [1, 1, 1], [-1, 1, -1],
        [-1, 1, -1], [1, 1, 1], [1, 1, -1],
        [-1, -1, -1], [1, -1, -1], [-1, -1, 1],
        [-1, -1, 1], [1, -1, -1], [1, -1, 1],
    ];
    let colors: Vec<[i8; 3]> = vec![
        [0, 0, 1], [0, 0, 1], [0, 0, 1],
        [0, 0, 1], [0, 0, 1], [0, 0, 1],
        [1, 0, 0], [1, 0, 0], [1, 0, 0],
        [1, 0, 0], [1, 0, 0], [1, 0, 0],
        [1, 1, 0], [1, 1, 0], [1, 1, 0],
        [1, 1, 0], [1, 1, 0], [1, 1, 0],
        [0, 1, 1], [0, 1, 1], [0, 1, 1],
        [0, 1, 1], [0, 1, 1], [0, 1, 1],
        [0, 1, 0], [0, 1, 0], [0, 1, 0],
        [0, 1, 0], [0, 1, 0], [0, 1, 0],
        [1, 0, 1], [1, 0, 1], [1, 0, 1],
        [1, 0, 1], [1, 0, 1], [1, 0, 1],
    ];
    let uvs: Vec<[i8; 2]> = vec![
        [0, 0], [1, 0], [0, 1], [0, 1], [1, 0], [1, 1],
        [0, 0], [1, 0], [0, 1], [0, 1], [1, 0], [1, 1],
        [0, 0], [1, 0], [0, 1], [0, 1], [1, 0], [1, 1],
        [0, 0], [1, 0], [0, 1], [0, 1], [1, 0], [1, 1],
        [0, 0], [1, 0], [0, 1], [0, 1], [1, 0], [1, 1],
        [0, 0], [1, 0], [0, 1], [0, 1], [1, 0], [1, 1],
    ];
    let normals: Vec<[i8; 3]> = vec![
        [0, 0, 1], [0, 0, 1], [0, 0, 1],
        [0, 0, 1], [0, 0, 1], [0, 0, 1],
        [1, 0, 0], [1, 0, 0], [1, 0, 0],
        [1, 0, 0], [1, 0, 0], [1, 0, 0],
        [0, 0, -1], [0, 0, -1], [0, 0, -1],
        [0, 0, -1], [0, 0, -1], [0, 0, -1],
        [-1, 0, 0], [-1, 0, 0], [-1, 0, 0],
        [-1, 0, 0], [-1, 0, 0], [-1, 0, 0],
        [0, 1, 0], [0, 1, 0], [0, 1, 0],
        [0, 1, 0], [0, 1, 0], [0, 1, 0],
        [0, -1, 0], [0, -1, 0], [0, -1, 0],
        [0, -1, 0], [0, -1, 0], [0, -1, 0],
    ];
    proof {
        assert(positions.deep_view() =~~= cube_positions());
        assert(colors.deep_view() =~~= cube_colors());
        assert(uvs.deep_view() =~~= cube_uvs());
        assert(normals.deep_view() =~~= cube_normals());
    }
    (positions, colors, uvs, normals)
}

/// The eight corner positions of the unit cube.
pub open spec fn cube_vertex_positions() -> Seq<Seq<i8>> {
    seq![
        seq![-1i8, -1i8, 1i8], seq![1i8, -1i8, 1i8], seq![1i8, 1i8, 1i8], seq![-1i8, 1i8, 1i8],
        seq![-1i8, -1i8, -1i8], seq![1i8, -1i8, -1i8], seq![1i8, 1i8, -1i8], seq![-1i8, 1i8, -1i8],
    ]
}

/// One color per corner.
pub open spec fn cube_vertex_colors() -> Seq<Seq<i8>> {
    seq![
        seq![0i8, 0i8, 1i8], seq![1i8, 0i8, 1i8], seq![1i8, 1i8, 1i8], seq![0i8, 1i8, 1i8],
        seq![0i8, 0i8, 0i8], seq![1i8, 0i8, 0i8], seq![1i8, 1i8, 0i8], seq![0i8, 1i8, 0i8],
    ]
}

/// The 36 indices of the cube's twelve triangles over the eight corners,
/// one face at a time: front, right, back, left, top, bottom.
pub open spec fn cube_indices() -> Seq<u16> {
    seq![0u16, 1u16, 2u16, 2u16, 3u16, 0u16, 1u16, 5u16, 6u16, 6u16, 2u16, 1u16, 4u16, 7u16, 6u16, 6u16, 5u16, 4u16, 0u16, 3u16, 7u16, 7u16, 4u16, 0u16, 3u16, 2u16, 6u16, 6u16, 7u16, 3u16, 0u16, 4u16, 5u16, 5u16, 1u16, 0u16]
}

/// The vertex data of the unit cube in indexed form: eight positions and
/// colors, and the 36 triangle indices over them.
pub fn cube_data_index() -> (r: (Vec<[i8; 3]>, Vec<[i8; 3]>, Vec<u16>))
    ensures
        r.0.deep_view() == cube_vertex_positions(),
        r.1.deep_view() == cube_vertex_colors(),
        r.2@ == cube_indices(),
{
    let positions: Vec<[i8; 3]> = vec![
        [-1, -1, 1], [1, -1, 1], [1, 1, 1], [-1, 1, 1],
        [-1, -1, -1], [1, -1, -1], [1, 1, -1], [-1, 1, -1],
    ];
    let colors: Vec<[i8; 3]> = vec![
        [0, 0, 1], [1, 0, 1], [1, 1, 1], [0, 1, 1],
        [0, 0, 0], [1, 0, 0], [1, 1, 0], [0, 1, 0],
    ];
    let indices: Vec<u16> = vec![0, 1, 2, 2, 3, 0, 1, 5, 6, 6, 2, 1, 4, 7, 6, 6, 5, 4, 0, 3, 7, 7, 4, 0, 3, 2, 6, 6, 7, 3, 0, 4, 5, 5, 1, 0];
    proof {
        assert(positions.deep_view() =~~= cube_vertex_positions());
        assert(colors.deep_view() =~~= cube_vertex_colors());
        assert(indices@ =~= cube_indices());
    }
    (positions, colors, indices)
}


/// The quad at row `i`, column `j` of a grid with `v` points per row
/// occupies the six slots from `6*(i*(v-1)+j)`: its two triangles in
/// emission order — `(i,j)`, `(i+1,j)`, `(i,j+1)`, then `(i+1,j)`,
/// `(i+1,j+1)`, `(i,j+1)`.
pub open spec fn sphere_quad_matches(g: Seq<(usize, usize)>, v: int, i: int, j: int) -> bool {
    let base: int = 6 * (i * (v - 1) + j);
    &&& g[base].0 == i && g[base].1 == j
    &&& g[base + 1].0 == i + 1 && g[base + 1].1 == j
    &&& g[base + 2].0 == i && g[base + 2].1 == j + 1
    &&& g[base + 3].0 == i + 1 && g[base + 3].1 == j
    &&& g[base + 4].0 == i + 1 && g[base + 4].1 == j + 1
    &&& g[base + 5].0 == i && g[base + 5].1 == j + 1
}

/// The corner grid of a latitude-longitude sphere net over `u` rings and
/// `v` meridians: exactly `6*(u-1)*(v-1)` slots, six per grid quad, each
/// naming the `(ring, meridian)` corner whose angles and surface point
/// the caller computes. The per-corner normals follow the same slots,
/// and the texture-coordinate channel of the provider stays empty.
/// Rejected exactly when a dimension is zero (the original index
/// arithmetic has no meaning there); a single ring or meridian yields no
/// quads.
pub fn sphere_grid(u: usize, v: usize) -> (r: Option<Vec<(usize, usize)>>)
    ensures
        r is Some <==> u > 0 && v > 0,
        r matches Some(g) ==> {
            &&& g@.len() == 6 * ((u - 1) * (v - 1))
            &&& forall|i: int, j: int|
                0 <= i < u - 1 && 0 <= j < v - 1 ==> #[trigger] sphere_quad_matches(
                    g@, v as int, i, j)
        },
{
    if u == 0 || v == 0 {
        return None;
    }
    let mut g: Vec<(usize, usize)> = Vec::new();
    let mut i: usize = 0;
    proof {
        assert((0int) * ((v as int) - 1) == 0) by (nonlinear_arith);
    }
    while i < u - 1
        invariant
            1 <= u,
            1 <= v,
            i <= u - 1,
            g@.len() == 6 * (i * (v - 1)),
            forall|i2: int, j2: int|
                0 <= i2 < i && 0 <= j2 < v - 1 ==> #[trigger] sphere_quad_matches(g@, v as int,
                i2, j2),
        decreases u - 1 - i,
    {
        let mut j: usize = 0;
        while j < v - 1
            invariant
                1 <= u,
                1 <= v,
                i < u - 1,
                j <= v - 1,
                g@.len() == 6 * (i * (v - 1)) + 6 * j,
                forall|i2: int, j2: int|
                    0 <= i2 < i && 0 <= j2 < v - 1 ==> #[trigger] sphere_quad_matches(g@,
                    v as int, i2, j2),
                forall|j2: int|
                    0 <= j2 < j ==> #[trigger] sphere_quad_matches(g@, v as int, i as int, j2),
            decreases v - 1 - j,
        {
            let i1: usize = i + 1;
            let j1: usize = j + 1;
            let ghost g0 = g@;
            g.push((i, j));
            g.push((i1, j));
            g.push((i, j1));
            g.push((i1, j));
            g.push((i1, j1));
            g.push((i, j1));
            proof {
                assert(g@ =~= g0 + seq![(i, j), (i1, j), (i, j1), (i1, j), (i1, j1), (i, j1)]);
                assert(g0.len() == 6 * ((i as int) * ((v as int) - 1) + (j as int)));
                assert(sphere_quad_matches(g@, v as int, i as int, j as int));
                assert forall|i2: int, j2: int|
                    0 <= i2 < i && 0 <= j2 < (v as int) - 1 implies #[trigger] sphere_quad_matches(
                    g@, v as int, i2, j2) by {
                    assert(sphere_quad_matches(g0, v as int, i2, j2));
                    assert(i2 * ((v as int) - 1) + j2 < (i as int) * ((v as int) - 1))
                        by (nonlinear_arith)
                        requires
                            0 <= i2 < i as int,
                            0 <= j2 < (v as int) - 1,
                    ;
                }
                assert forall|j2: int| 0 <= j2 < (j as int) + 1 implies #[trigger]
                    sphere_quad_matches(g@, v as int, i as int, j2) by {
                    if j2 < j as int {
                        assert(sphere_quad_matches(g0, v as int, i as int, j2));
                    }
                }
            }
            j = j + 1;
        }
        proof {
            assert(6 * ((i as int) * ((v as int) - 1)) + 6 * ((v as int) - 1) == 6 * (((
            i as int) + 1) * ((v as int) - 1))) by (nonlinear_arith);
        }
        i = i + 1;
    }
    Some(g)
}

/// The quad at row `i`, column `j` of a torus net: six slots from
/// `6*(i*(v-1)+j)`, two triangles in emission order — `(i,j)`, `(i+1,j)`,
/// `(i+1,j+1)`, then `(i+1,j+1)`, `(i,j+1)`, `(i,j)`.
pub open spec fn torus_quad_matches(g: Seq<(usize, usize)>, v: int, i: int, j: int) -> bool {
    let base: int = 6 * (i * (v - 1) + j);
    &&& g[base].0 == i && g[base].1 == j
    &&& g[base + 1].0 == i + 1 && g[base + 1].1 == j
    &&& g[base + 2].0 == i + 1 && g[base + 2].1 == j + 1
    &&& g[base + 3].0 == i + 1 && g[base + 3].1 == j + 1
    &&& g[base + 4].0 == i && g[base + 4].1 == j + 1
    &&& g[base + 5].0 == i && g[base + 5].1 == j
}

/// The corner grid of a torus net over `n_torus` ring steps and `n_tube`
/// tube steps: exactly `6*(n_torus-1)*(n_tube-1)` slots, six per quad,
/// each naming the `(ring, tube)` corner whose angle pair the caller
/// computes. One flat normal per quad covers its six slots, and the
/// texture-coordinate channel of the provider stays empty. Rejected
/// exactly when a dimension is zero.
pub fn torus_grid(n_torus: usize, n_tube: usize) -> (r: Option<Vec<(usize, usize)>>)
    ensures
        r is Some <==> n_torus > 0 && n_tube > 0,
        r matches Some(g) ==> {
            &&& g@.len() == 6 * ((n_torus - 1) * (n_tube - 1))
            &&& forall|i: int, j: int|
                0 <= i < n_torus - 1 && 0 <= j < n_tube - 1 ==> #[trigger] torus_quad_matches(
                    g@, n_tube as int, i, j)
        },
{
    if n_torus == 0 || n_tube == 0 {
        return None;
    }
    let v: usize = n_tube;
    let mut g: Vec<(usize, usize)> = Vec::new();
    let mut i: usize = 0;
    proof {
        assert((0int) * ((v as int) - 1) == 0) by (nonlinear_arith);
    }
    while i < n_torus - 1
        invariant
            1 <= n_torus,
            1 <= v,
            i <= n_torus - 1,
            g@.len() == 6 * (i * (v - 1)),
            forall|i2: int, j2: int|
                0 <= i2 < i && 0 <= j2 < v - 1 ==> #[trigger] torus_quad_matches(g@, v as int,
                i2, j2),
        decreases n_torus - 1 - i,
    {
        let mut j: usize = 0;
        while j < v - 1
            invariant
                1 <= n_torus,
                1 <= v,
                i < n_torus - 1,
                j <= v - 1,
                g@.len() == 6 * (i * (v - 1)) + 6 * j,
                forall|i2: int, j2: int|
                    0 <= i2 < i && 0 <= j2 < v - 1 ==> #[trigger] torus_quad_matches(g@,
                    v as int, i2, j2),
                forall|j2: int|
                    0 <= j2 < j ==> #[trigger] torus_quad_matches(g@, v as int, i as int, j2),
            decreases v - 1 - j,
        {
            let i1: usize = i + 1;
            let j1: usize = j + 1;
            let ghost g0 = g@;
            g.push((i, j));
            g.push((i1, j));
            g.push((i1, j1));
            g.push((i1, j1));
            g.push((i, j1));
            g.push((i, j));
            proof {
                assert(g@ =~= g0 + seq![(i, j), (i1, j), (i1, j1), (i1, j1), (i, j1), (i, j)]);
                assert(g0.len() == 6 * ((i as int) * ((v as int) - 1) + (j as int)));
                assert(torus_quad_matches(g@, v as int, i as int, j as int));
                assert forall|i2: int, j2: int|
                    0 <= i2 < i && 0 <= j2 < (v as int) - 1 implies #[trigger] torus_quad_matches(
                    g@, v as int, i2, j2) by {
                    assert(torus_quad_matches(g0, v as int, i2, j2));
                    assert(i2 * ((v as int) - 1) + j2 < (i as int) * ((v as int) - 1))
                        by (nonlinear_arith)
                        requires
                            0 <= i2 < i as int,
                            0 <= j2 < (v as int) - 1,
                    ;
                }
                assert forall|j2: int| 0 <= j2 < (j as int) + 1 implies #[trigger]
                    torus_quad_matches(g@, v as int, i as int, j2) by {
                    if j2 < j as int {
                        assert(torus_quad_matches(g0, v as int, i as int, j2));
                    }
                }
            }
            j = j + 1;
        }
        proof {
            assert(6 * ((i as int) * ((v as int) - 1)) + 6 * ((v as int) - 1) == 6 * (((
            i as int) + 1) * ((v as int) - 1))) by (nonlinear_arith);
        }
        i = i + 1;
    }
    Some(g)
}

/// The twelve slots of cone segment `i`, from `12*i`, as `(segment,
/// point)` pairs. The point ids name the six cylinder points of the
/// segment: 0 the top radius and 1 the bottom radius at angle step `i`,
/// 2 and 3 the axis at the bottom and top, 4 the top radius and 5 the
/// bottom radius at angle step `i+1`. Emission order: the top-face
/// triangle, the bottom-face triangle, then the two outer-face
/// triangles.
pub open spec fn cone_segment_matches(g: Seq<(usize, usize)>, i: int) -> bool {
    let base: int = 12 * i;
    &&& g[base].0 == i && g[base].1 == 0
    &&& g[base + 1].0 == i && g[base + 1].1 == 4
    &&& g[base + 2].0 == i && g[base + 2].1 == 3
    &&& g[base + 3].0 == i && g[base + 3].1 == 1
    &&& g[base + 4].0 == i && g[base + 4].1 == 2
    &&& g[base + 5].0 == i && g[base + 5].1 == 5
    &&& g[base + 6].0 == i && g[base + 6].1 == 0
    &&& g[base + 7].0 == i && g[base + 7].1 == 1
    &&& g[base + 8].0 == i && g[base + 8].1 == 5
    &&& g[base + 9].0 == i && g[base + 9].1 == 5
    &&& g[base + 10].0 == i && g[base + 10].1 == 4
    &&& g[base + 11].0 == i && g[base + 11].1 == 0
}

/// The slot table of a cone net over `n` angle steps: exactly `12*(n-1)`
/// slots, twelve per segment, each naming the cylinder point whose
/// radius, height and angle the caller computes. Rejected exactly at
/// `n == 0`, where the original index arithmetic underflows; `n == 1`
/// yields no segments. The texture-coordinate channel of the provider
/// stays empty.
pub fn cone_slots(n: usize) -> (r: Option<Vec<(usize, usize)>>)
    ensures
        r is Some <==> n > 0,
        r matches Some(g) ==> {
            &&& g@.len() == 12 * (n - 1)
            &&& forall|i: int| 0 <= i < n - 1 ==> #[trigger] cone_segment_matches(g@, i)
        },
{
    if n == 0 {
        return None;
    }
    let mut g: Vec<(usize, usize)> = Vec::new();
    let mut i: usize = 0;
    while i < n - 1
        invariant
            1 <= n,
            i <= n - 1,
            g@.len() == 12 * i,
            forall|i2: int| 0 <= i2 < i ==> #[trigger] cone_segment_matches(g@, i2),
        decreases n - 1 - i,
    {
        let ghost g0 = g@;
        g.push((i, 0));
        g.push((i, 4));
        g.push((i, 3));
        g.push((i, 1));
        g.push((i, 2));
        g.push((i, 5));
        g.push((i, 0));
        g.push((i, 1));
        g.push((i, 5));
        g.push((i, 5));
        g.push((i, 4));
        g.push((i, 0));
        proof {
            assert(g@ =~= g0 + seq![
                (i, 0usize), (i, 4usize), (i, 3usize), (i, 1usize), (i, 2usize), (i, 5usize),
                (i, 0usize), (i, 1usize), (i, 5usize), (i, 5usize), (i, 4usize), (i, 0usize),
            ]);
            assert(cone_segment_matches(g@, i as int));
            assert forall|i2: int| 0 <= i2 < (i as int) + 1 implies #[trigger]
                cone_segment_matches(g@, i2) by {
                if i2 < i as int {
                    assert(cone_segment_matches(g0, i2));
                }
            }
        }
        i = i + 1;
    }
    Some(g)
}

} // verus!
