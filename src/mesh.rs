use vstd::prelude::*;

use crate::axis::{GridAxis, LineFamily, WorldAxis};

verus! {

/// The largest grid size whose vertex indices all fit in a `u32`:
/// a grid of size `n` has `4 * (n + 1)` vertices.
pub const MAX_GRID_SIZE: u32 = 0x3FFF_FFFF;

/// A grid vertex in half-spacing units: the coordinate `k` stands for
/// `k * spacing / 2` world units. Scaling to world units is left to the
/// caller, who knows the spacing.
#[derive(Debug, Clone, Copy, PartialEq, Eq, Structural)]
pub struct GridPoint {
    pub x: i64,
    pub y: i64,
    pub z: i64,
}

impl View for GridPoint {
    type V = (int, int, int);

    open spec fn view(&self) -> (int, int, int) {
        (self.x as int, self.y as int, self.z as int)
    }
}

/// The coordinate of `p` on the world axis `a`.
pub open spec fn coord(p: (int, int, int), a: WorldAxis) -> int {
    match a {
        WorldAxis::X => p.0,
        WorldAxis::Y => p.1,
        WorldAxis::Z => p.2,
    }
}

/// The coordinate on axis `w` of a point that lies at `along` on `run`, at
/// `offset` on `across`, and at zero on the remaining axis.
pub open spec fn component(w: WorldAxis, run: WorldAxis, across: WorldAxis, along: int, offset: int) -> int {
    if w == run {
        along
    } else if w == across {
        offset
    } else {
        0
    }
}

/// The point at `along` on `run`, at `offset` on `across`, and zero elsewhere.
pub open spec fn place(run: WorldAxis, across: WorldAxis, along: int, offset: int) -> (int, int, int) {
    (
        component(WorldAxis::X, run, across, along, offset),
        component(WorldAxis::Y, run, across, along, offset),
        component(WorldAxis::Z, run, across, along, offset),
    )
}

fn component_value(w: WorldAxis, run: WorldAxis, across: WorldAxis, along: i64, offset: i64) -> (r: i64)
    ensures
        r == component(w, run, across, along as int, offset as int),
{
    if w == run {
        along
    } else if w == across {
        offset
    } else {
        0
    }
}

fn place_point(run: WorldAxis, across: WorldAxis, along: i64, offset: i64) -> (p: GridPoint)
    ensures
        p@ == place(run, across, along as int, offset as int),
{
    GridPoint {
        x: component_value(WorldAxis::X, run, across, along, offset),
        y: component_value(WorldAxis::Y, run, across, along, offset),
        z: component_value(WorldAxis::Z, run, across, along, offset),
    }
}

/// The parameters of a grid: its plane, its number of cells per side, and
/// the colours of its lines.
///
/// The colour type is left to the caller; the grid only picks, for each
/// line, which of the five colours it gets.
pub struct GridConfig<C> {
    pub grid_axis: GridAxis,
    /// Number of grid cells per side; the grid has `size + 1` lines in each family.
    pub size: u32,
    /// Colour of a centreline that runs along the world X axis.
    pub x_axis_color: C,
    /// Colour of a centreline that runs along the world Y axis.
    pub y_axis_color: C,
    /// Colour of a centreline that runs along the world Z axis.
    pub z_axis_color: C,
    /// Colour of the ordinary lines.
    pub minor_line_color: C,
    /// Colour of every tenth line that is not a centreline.
    pub major_line_color: C,
}

/// The mathematical content of a `LineMesh`.
#[verifier::ext_equal]
pub struct MeshView<C> {
    pub positions: Seq<(int, int, int)>,
    pub colors: Seq<C>,
    pub indices: Seq<u32>,
}

/// A line-list mesh: vertex `2 * l` and `2 * l + 1` are the endpoints of
/// line `l`, each vertex carries its line's colour, and the index buffer
/// names every vertex once, in order.
pub struct LineMesh<C> {
    pub positions: Vec<GridPoint>,
    pub colors: Vec<C>,
    pub indices: Vec<u32>,
}

impl<C> View for LineMesh<C> {
    type V = MeshView<C>;

    open spec fn view(&self) -> MeshView<C> {
        MeshView {
            positions: self.positions@.map_values(|p: GridPoint| p@),
            colors: self.colors@,
            indices: self.indices@,
        }
    }
}

impl<C> GridConfig<C> {
    /// The colour that highlights a centreline running along world axis `a`.
    pub open spec fn axis_color(self, a: WorldAxis) -> C {
        match a {
            WorldAxis::X => self.x_axis_color,
            WorldAxis::Y => self.y_axis_color,
            WorldAxis::Z => self.z_axis_color,
        }
    }

    /// The step of the centreline of each family.
    pub open spec fn center(self) -> int {
        self.size as int / 2
    }

    /// The colour of line `step` of `family`: the centreline takes the
    /// colour of the axis it runs along; any other tenth line is major; the
    /// rest are minor.
    pub open spec fn color_of(self, family: LineFamily, step: int) -> C {
        if step == self.center() {
            self.axis_color(self.grid_axis.run_axis(family))
        } else if step % 10 == 0 {
            self.major_line_color
        } else {
            self.minor_line_color
        }
    }

    /// Where line `step` of `family` lies along its offset axis, in
    /// half-spacing units: `step * spacing - size * spacing / 2`.
    pub open spec fn offset_of(self, step: int) -> int {
        2 * step - self.size
    }

    /// The first endpoint of line `step` of `family`.
    pub open spec fn start_of(self, family: LineFamily, step: int) -> (int, int, int) {
        place(
            self.grid_axis.run_axis(family),
            self.grid_axis.offset_axis(family),
            -(self.size as int),
            self.offset_of(step),
        )
    }

    /// The second endpoint of line `step` of `family`.
    pub open spec fn end_of(self, family: LineFamily, step: int) -> (int, int, int) {
        place(
            self.grid_axis.run_axis(family),
            self.grid_axis.offset_axis(family),
            self.size as int,
            self.offset_of(step),
        )
    }

    /// Number of lines: `size + 1` in each family.
    pub open spec fn line_count(self) -> nat {
        2 * (self.size as nat + 1)
    }

    /// Number of vertices: two per line.
    pub open spec fn vertex_count(self) -> nat {
        4 * (self.size as nat + 1)
    }

    /// The family of line `line`: the horizontal lines come first.
    pub open spec fn family_of(self, line: int) -> LineFamily {
        if line <= self.size {
            LineFamily::Horizontal
        } else {
            LineFamily::Vertical
        }
    }

    /// The step of line `line` within its family.
    pub open spec fn step_of(self, line: int) -> int {
        if line <= self.size {
            line
        } else {
            line - self.size - 1
        }
    }

    /// The position of vertex `v`: an even vertex starts line `v / 2`, an
    /// odd one ends it.
    pub open spec fn vertex_position(self, v: int) -> (int, int, int) {
        let line = v / 2;
        if v % 2 == 0 {
            self.start_of(self.family_of(line), self.step_of(line))
        } else {
            self.end_of(self.family_of(line), self.step_of(line))
        }
    }

    /// The colour of vertex `v`: that of its line.
    pub open spec fn vertex_color(self, v: int) -> C {
        let line = v / 2;
        self.color_of(self.family_of(line), self.step_of(line))
    }

    /// The mesh of this grid.
    pub open spec fn model(self) -> MeshView<C> {
        MeshView {
            positions: Seq::new(self.vertex_count(), |v: int| self.vertex_position(v)),
            colors: Seq::new(self.vertex_count(), |v: int| self.vertex_color(v)),
            indices: Seq::new(self.vertex_count(), |v: int| v as u32),
        }
    }

    /// The two endpoints of line `step` of `family`.
    pub fn line_endpoints(&self, family: LineFamily, step: u32) -> (r: (GridPoint, GridPoint))
        requires
            step <= self.size,
        ensures
            r.0@ == self.start_of(family, step as int),
            r.1@ == self.end_of(family, step as int),
    {
        let (run, across) = self.grid_axis.line_axes(family);
        let half: i64 = self.size as i64;
        let offset: i64 = 2 * (step as i64) - half;
        (place_point(run, across, -half, offset), place_point(run, across, half, offset))
    }
}

impl<C: Copy> GridConfig<C> {
    /// The colour that highlights a centreline running along world axis `a`.
    pub fn centerline_color(&self, a: WorldAxis) -> (c: C)
        ensures
            c == self.axis_color(a),
    {
        match a {
            WorldAxis::X => self.x_axis_color,
            WorldAxis::Y => self.y_axis_color,
            WorldAxis::Z => self.z_axis_color,
        }
    }

    /// The colour of line `step` of `family`. The rules are tried in order:
    /// centreline first, then every tenth line, then the default.
    pub fn line_color(&self, family: LineFamily, step: u32) -> (c: C)
        ensures
            c == self.color_of(family, step as int),
    {
        if step == self.size / 2 {
            let (run, _) = self.grid_axis.line_axes(family);
            self.centerline_color(run)
        } else if step % 10 == 0 {
            self.major_line_color
        } else {
            self.minor_line_color
        }
    }
}

impl<C> LineMesh<C> {
    /// The mesh holds exactly the first `lines` lines of the grid of `config`.
    spec fn holds_lines(self, config: GridConfig<C>, lines: int) -> bool {
        &&& self.positions@.len() == 2 * lines
        &&& self.colors@.len() == 2 * lines
        &&& self.indices@.len() == 2 * lines
        &&& forall|v: int|
            0 <= v < 2 * lines ==> #[trigger] self.positions@[v]@ == config.vertex_position(v)
        &&& forall|v: int| 0 <= v < 2 * lines ==> #[trigger] self.colors@[v] == config.vertex_color(v)
        &&& forall|v: int| 0 <= v < 2 * lines ==> #[trigger] self.indices@[v] == v
    }
}

impl<C: Copy> LineMesh<C> {
    fn push_line(&mut self, start: GridPoint, end: GridPoint, color: C, first: u32)
        requires
            first < u32::MAX,
        ensures
            final(self).positions@ == old(self).positions@.push(start).push(end),
            final(self).colors@ == old(self).colors@.push(color).push(color),
            final(self).indices@ == old(self).indices@.push(first).push((first + 1) as u32),
    {
        self.positions.push(start);
        self.positions.push(end);
        self.colors.push(color);
        self.colors.push(color);
        self.indices.push(first);
        self.indices.push(first + 1);
    }
}

/// Appends the lines of `family`, in step order, to a mesh that holds every
/// line before them.
fn push_family<C: Copy>(config: &GridConfig<C>, family: LineFamily, mesh: &mut LineMesh<C>)
    requires
        config.size <= MAX_GRID_SIZE,
        old(mesh).holds_lines(*config, first_line(*config, family)),
    ensures
        final(mesh).holds_lines(*config, first_line(*config, family) + config.size + 1),
{
    let base: u64 = match family {
        LineFamily::Horizontal => 0,
        LineFamily::Vertical => config.size as u64 + 1,
    };
    let mut step: u32 = 0;
    while step <= config.size
        invariant
            config.size <= MAX_GRID_SIZE,
            base == first_line(*config, family),
            step <= config.size + 1,
            mesh.holds_lines(*config, base + step),
        decreases config.size + 1 - step,
    {
        let (start, end) = config.line_endpoints(family, step);
        let color = config.line_color(family, step);
        let line: u64 = base + step as u64;
        let first: u64 = 2 * line;
        proof {
            assert(config.family_of(line as int) == family);
            assert(config.step_of(line as int) == step);
        }
        let ghost prev = *mesh;
        mesh.push_line(start, end, color, first as u32);
        assert forall|v: int| 0 <= v < 2 * (line + 1) implies #[trigger] mesh.positions@[v]@
            == config.vertex_position(v) && mesh.colors@[v] == config.vertex_color(v)
            && mesh.indices@[v] == v by {
            if v < 2 * line {
                assert(mesh.positions@[v] == prev.positions@[v]);
                assert(mesh.colors@[v] == prev.colors@[v]);
                assert(mesh.indices@[v] == prev.indices@[v]);
            }
        }
        step = step + 1;
    }
}

/// The index of the first line of `family`.
spec fn first_line<C>(config: GridConfig<C>, family: LineFamily) -> int {
    match family {
        LineFamily::Horizontal => 0,
        LineFamily::Vertical => config.size + 1,
    }
}

/// Builds the grid mesh of `config`: for each family, `size + 1` lines in
/// step order, two fresh vertices per line, one index per vertex.
pub fn create_grid_mesh<C: Copy>(config: &GridConfig<C>) -> (mesh: LineMesh<C>)
    requires
        config.size <= MAX_GRID_SIZE,
    ensures
        mesh@ == config.model(),
        mesh.positions@.len() == config.vertex_count(),
        mesh.colors@.len() == config.vertex_count(),
        mesh.indices@.len() == config.vertex_count(),
        forall|v: int| 0 <= v < mesh.indices@.len() ==> #[trigger] mesh.indices@[v] == v,
{
    let mut mesh = LineMesh { positions: Vec::new(), colors: Vec::new(), indices: Vec::new() };
    push_family(config, LineFamily::Horizontal, &mut mesh);
    push_family(config, LineFamily::Vertical, &mut mesh);
    let ghost model = config.model();
    assert(mesh@.positions =~= model.positions);
    assert(mesh@.colors =~= model.colors);
    assert(mesh@.indices =~= model.indices);
    mesh
}

} // verus!
