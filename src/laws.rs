use vstd::prelude::*;

use crate::mesh::{coord, GridConfig, LineMesh};

verus! {

/// Two grids that differ only in their plane have the same vertex count and
/// the same index buffer. Each vertex keeps its coordinates, moved from the
/// first plane's axes to the matching axes of the second, and its coordinate
/// on the plane's normal axis is zero. Each line keeps its colour, except the
/// two centrelines, which take the colour of the world axis they run along.
pub proof fn lemma_axis_change<C>(a: GridConfig<C>, b: GridConfig<C>)
    requires
        a.size == b.size,
        a.x_axis_color == b.x_axis_color,
        a.y_axis_color == b.y_axis_color,
        a.z_axis_color == b.z_axis_color,
        a.minor_line_color == b.minor_line_color,
        a.major_line_color == b.major_line_color,
    ensures
        a.model().positions.len() == b.model().positions.len(),
        a.model().colors.len() == b.model().colors.len(),
        a.model().indices == b.model().indices,
        forall|v: int|
            0 <= v < a.vertex_count() ==> {
                &&& coord(#[trigger] b.model().positions[v], b.grid_axis.first_axis()) == coord(
                    a.model().positions[v],
                    a.grid_axis.first_axis(),
                )
                &&& coord(b.model().positions[v], b.grid_axis.second_axis()) == coord(
                    a.model().positions[v],
                    a.grid_axis.second_axis(),
                )
                &&& coord(a.model().positions[v], a.grid_axis.normal_axis()) == 0
                &&& coord(b.model().positions[v], b.grid_axis.normal_axis()) == 0
            },
        forall|v: int|
            0 <= v < a.vertex_count() && a.step_of(v / 2) != a.center() ==> #[trigger] b.model().colors[v]
                == a.model().colors[v],
        forall|v: int|
            0 <= v < a.vertex_count() && a.step_of(v / 2) == a.center() ==> {
                &&& #[trigger] a.model().colors[v] == a.axis_color(
                    a.grid_axis.run_axis(a.family_of(v / 2)),
                )
                &&& b.model().colors[v] == b.axis_color(b.grid_axis.run_axis(b.family_of(v / 2)))
            },
{
    assert(a.model().indices =~= b.model().indices);
}

/// Building the grid of one configuration twice gives identical meshes: the
/// same points, colours and indices, in the same order.
pub proof fn lemma_build_deterministic<C>(config: GridConfig<C>, m1: LineMesh<C>, m2: LineMesh<C>)
    requires
        m1@ == config.model(),
        m2@ == config.model(),
    ensures
        m1.positions@ == m2.positions@,
        m1.colors@ == m2.colors@,
        m1.indices@ == m2.indices@,
{
    assert(m1@.positions == m2@.positions);
    assert(m1@.positions.len() == m1.positions@.len());
    assert(m2@.positions.len() == m2.positions@.len());
    assert forall|i: int| 0 <= i < m1.positions@.len() implies m1.positions@[i] == m2.positions@[i] by {
        assert(m1@.positions[i] == m2@.positions[i]);
    }
    assert(m1.positions@ =~= m2.positions@);
}

} // verus!
