//! The vertex layout of the volumetric-mode quad grid: one quad per glyph
//! cell (two triangles, six vertices), so each glyph can be positioned
//! independently in 3D and projected through the volumetric camera.

use vstd::prelude::*;

verus! {

/// Floats per vertex: the cell's grid position `(x, y)` (constant across
/// the quad's six vertices) and the corner `(cx, cy)` this vertex is.
pub const FLOATS_PER_VERTEX: usize = 4;

/// Vertices per quad: two triangles.
pub const VERTICES_PER_QUAD: usize = 6;

/// The corner of the quad that vertex `k` (`0..6`) of its two triangles
/// sits at: `(0,0) (0,1) (1,1)` then `(0,0) (1,1) (1,0)`.
pub open spec fn quad_corner(k: int) -> (u32, u32) {
    if k == 0 {
        (0, 0)
    } else if k == 1 {
        (0, 1)
    } else if k == 2 {
        (1, 1)
    } else if k == 3 {
        (0, 0)
    } else if k == 4 {
        (1, 1)
    } else {
        (1, 0)
    }
}

/// Value `i` of the vertex data of a grid `columns` cells wide: quads are
/// laid out row by row, each as 6 vertices of 4 values `x, y, cx, cy`.
pub open spec fn vertex_value(columns: nat, i: int) -> u32 {
    let quad = i / 24;
    let k = (i % 24) / 4;
    let c = i % 4;
    if c == 0 {
        (quad % (columns as int)) as u32
    } else if c == 1 {
        (quad / (columns as int)) as u32
    } else if c == 2 {
        quad_corner(k).0
    } else {
        quad_corner(k).1
    }
}

/// Where value `c` of vertex `k` of the quad of cell `(x, y)` sits, and
/// what the flat layout decodes it to.
proof fn lemma_vertex_index(columns: int, x: int, y: int, k: int, c: int)
    requires
        0 <= x < columns,
        0 <= y,
        0 <= k < 6,
        0 <= c < 4,
    ensures
        ({
            let i = ((y * columns + x) * 6 + k) * 4 + c;
            &&& i / 24 == y * columns + x
            &&& (i % 24) / 4 == k
            &&& i % 4 == c
            &&& (y * columns + x) % columns == x
            &&& (y * columns + x) / columns == y
            &&& 0 <= i
        }),
{
    let q = y * columns + x;
    let i = (q * 6 + k) * 4 + c;
    assert(0 <= y * columns) by (nonlinear_arith)
        requires
            0 <= y,
            0 < columns,
    ;
    assert(i == q * 24 + (k * 4 + c));
    vstd::arithmetic::div_mod::lemma_fundamental_div_mod_converse(i, 24, q, k * 4 + c);
    vstd::arithmetic::div_mod::lemma_fundamental_div_mod_converse(k * 4 + c, 4, k, c);
    vstd::arithmetic::div_mod::lemma_fundamental_div_mod_converse(i, 4, q * 6 + k, c);
    vstd::arithmetic::div_mod::lemma_fundamental_div_mod_converse(q, columns, y, x);
}

/// The vertex data of a `num_quad_columns` x `num_quad_rows` quad grid.
pub fn build_vertex_data(num_quad_columns: u32, num_quad_rows: u32) -> (r: Vec<u32>)
    requires
        num_quad_columns * num_quad_rows * 24 <= u32::MAX,
    ensures
        r@.len() == num_quad_columns * num_quad_rows * 24,
        forall|i: int|
            0 <= i < r@.len() ==> #[trigger] r@[i] == vertex_value(num_quad_columns as nat, i),
{
    let columns = num_quad_columns;
    let rows = num_quad_rows;
    let mut data: Vec<u32> = Vec::new();
    let mut y: u32 = 0;
    while y < rows
        invariant
            columns * rows * 24 <= u32::MAX,
            y <= rows,
            data@.len() == y * columns * 24,
            forall|i: int| 0 <= i < data@.len() ==> #[trigger] data@[i] == vertex_value(columns as nat, i),
        decreases rows - y,
    {
        let mut x: u32 = 0;
        while x < columns
            invariant
                columns * rows * 24 <= u32::MAX,
                y < rows,
                x <= columns,
                data@.len() == (y * columns + x) * 24,
                forall|i: int| 0 <= i < data@.len() ==> #[trigger] data@[i] == vertex_value(columns as nat, i),
            decreases columns - x,
        {
            let mut k: u32 = 0;
            while k < 6
                invariant
                    columns * rows * 24 <= u32::MAX,
                    y < rows,
                    x < columns,
                    k <= 6,
                    data@.len() == ((y * columns + x) * 6 + k) * 4,
                    forall|i: int| 0 <= i < data@.len() ==> #[trigger] data@[i] == vertex_value(columns as nat, i),
                decreases 6 - k,
            {
                let (cx, cy): (u32, u32) = if k == 0 {
                    (0, 0)
                } else if k == 1 {
                    (0, 1)
                } else if k == 2 {
                    (1, 1)
                } else if k == 3 {
                    (0, 0)
                } else if k == 4 {
                    (1, 1)
                } else {
                    (1, 0)
                };
                proof {
                    lemma_vertex_index(columns as int, x as int, y as int, k as int, 0);
                    lemma_vertex_index(columns as int, x as int, y as int, k as int, 1);
                    lemma_vertex_index(columns as int, x as int, y as int, k as int, 2);
                    lemma_vertex_index(columns as int, x as int, y as int, k as int, 3);
                }
                data.push(x);
                data.push(y);
                data.push(cx);
                data.push(cy);
                k = k + 1;
            }
            x = x + 1;
        }
        proof {
            assert((y + 1) * columns * 24 == (y * columns + columns) * 24) by (nonlinear_arith);
        }
        y = y + 1;
    }
    proof {
        assert(rows * columns * 24 == columns * rows * 24) by (nonlinear_arith);
    }
    data
}

/// The number of vertices drawn for a `num_quad_columns` x
/// `num_quad_rows` quad grid.
pub fn vertex_count(num_quad_columns: u32, num_quad_rows: u32) -> (r: u32)
    requires
        num_quad_columns * num_quad_rows * 6 <= u32::MAX,
    ensures
        r == num_quad_columns * num_quad_rows * 6,
{
    num_quad_columns * num_quad_rows * 6
}

/// Every vertex of the quad of cell `(x, y)` carries the cell's position
/// and its own corner: vertex `k` of that quad holds `x, y`, then the
/// corner `quad_corner(k)`.
pub proof fn lemma_vertex_layout(columns: nat, x: nat, y: nat, k: nat)
    requires
        x < columns,
        k < 6,
        y * columns + x < u32::MAX,
    ensures
        ({
            let base = (((y * columns + x) * 6 + k) * 4) as int;
            &&& vertex_value(columns, base) == x
            &&& vertex_value(columns, base + 1) == y
            &&& vertex_value(columns, base + 2) == quad_corner(k as int).0
            &&& vertex_value(columns, base + 3) == quad_corner(k as int).1
        }),
{
    lemma_vertex_index(columns as int, x as int, y as int, k as int, 0);
    lemma_vertex_index(columns as int, x as int, y as int, k as int, 1);
    lemma_vertex_index(columns as int, x as int, y as int, k as int, 2);
    lemma_vertex_index(columns as int, x as int, y as int, k as int, 3);
}

/// Whether a quad grid built `columns` x `rows` cells must be rebuilt to
/// be `new_columns` x `new_rows`: exactly when either dimension differs.
pub fn grid_changed(columns: u32, rows: u32, new_columns: u32, new_rows: u32) -> (r: bool)
    ensures
        r == (columns != new_columns || rows != new_rows),
{
    columns != new_columns || rows != new_rows
}


/// Each quad is drawn as the triangles `(0,0) (0,1) (1,1)` and
/// `(0,0) (1,1) (1,0)`, which share the `(0,0)`-`(1,1)` diagonal and
/// together cover all four corners.
pub proof fn lemma_quad_triangles()
    ensures
        quad_corner(0) == (0u32, 0u32),
        quad_corner(1) == (0u32, 1u32),
        quad_corner(2) == (1u32, 1u32),
        quad_corner(3) == (0u32, 0u32),
        quad_corner(4) == (1u32, 1u32),
        quad_corner(5) == (1u32, 0u32),
{
}

} // verus!
