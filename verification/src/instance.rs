//! The static grid of instances: where each copy of the mesh stands and how
//! it is turned, and the layout of the per-instance vertex buffer.
//!
//! Coordinates are kept in half units. A grid with an odd number of rows is
//! centred on a half-integer, and doubling keeps every coordinate an exact
//! integer.

use vstd::prelude::*;
use vstd::arithmetic::div_mod::lemma_fundamental_div_mod;
use vstd::arithmetic::div_mod::lemma_fundamental_div_mod_converse;
use vstd::arithmetic::div_mod::lemma_mod_pos_bound;
use vstd::arithmetic::mul::lemma_mul_is_commutative;

verus! {

/// A point or displacement, each coordinate doubled.
#[derive(Clone, Copy, Debug, PartialEq, Eq, Structural)]
pub struct HalfVec3 {
    pub x: i64,
    pub y: i64,
    pub z: i64,
}

/// The axis an instance is turned about.
#[derive(Clone, Copy, Debug, PartialEq, Eq, Structural)]
pub enum Axis {
    /// The world's +Z axis.
    UnitZ,
    /// The instance's own position, normalised.
    Position,
}

/// A turn by a whole number of degrees about an axis.
#[derive(Clone, Copy, Debug, PartialEq, Eq, Structural)]
pub struct Rotation {
    pub axis: Axis,
    pub degrees: u32,
}

/// One copy of the mesh.
#[derive(Clone, Copy, Debug, PartialEq, Eq, Structural)]
pub struct Instance {
    pub position: HalfVec3,
    pub rotation: Rotation,
}

/// Position of cell `(x, z)`: the cell's coordinates less half the grid's
/// extent, doubled.
pub open spec fn spec_position(rows_x: int, rows_z: int, x: int, z: int) -> HalfVec3 {
    HalfVec3 { x: (2 * x - rows_x) as i64, y: 0, z: (2 * z - rows_z) as i64 }
}

/// An instance at the origin is not turned; any other is turned by 45
/// degrees about its own position.
pub open spec fn spec_rotation(position: HalfVec3) -> Rotation {
    if position.x == 0 && position.y == 0 && position.z == 0 {
        Rotation { axis: Axis::UnitZ, degrees: 0 }
    } else {
        Rotation { axis: Axis::Position, degrees: 45 }
    }
}

/// The instance of cell `(x, z)`.
pub open spec fn spec_instance(rows_x: int, rows_z: int, x: int, z: int) -> Instance {
    let position = spec_position(rows_x, rows_z, x, z);
    Instance { position, rotation: spec_rotation(position) }
}

/// The whole grid, row after row: entry `z * rows_x + x` is cell `(x, z)`.
pub open spec fn spec_grid(rows_x: int, rows_z: int) -> Seq<Instance> {
    Seq::new(
        (rows_x * rows_z) as nat,
        |i: int| spec_instance(rows_x, rows_z, i % rows_x, i / rows_x),
    )
}

/// Every cell of the grid is present, at the index its row and column give.
pub proof fn lemma_cell_present(rows_x: int, rows_z: int, x: int, z: int)
    requires
        0 <= x < rows_x,
        0 <= z < rows_z,
    ensures
        0 <= z * rows_x + x < spec_grid(rows_x, rows_z).len(),
        spec_grid(rows_x, rows_z)[z * rows_x + x] == spec_instance(rows_x, rows_z, x, z),
{
    let i = z * rows_x + x;
    lemma_fundamental_div_mod_converse(i, rows_x, z, x);
    assert(0 <= z * rows_x) by (nonlinear_arith)
        requires
            0 <= z,
            0 <= rows_x,
    ;
    assert(z * rows_x + rows_x <= rows_z * rows_x) by (nonlinear_arith)
        requires
            z + 1 <= rows_z,
            0 <= rows_x,
    ;
    lemma_mul_is_commutative(rows_x, rows_z);
}

/// Every entry of the grid is the instance of a cell inside the grid.
pub proof fn lemma_entry_is_cell(rows_x: int, rows_z: int, i: int)
    requires
        0 <= rows_x,
        0 <= rows_z,
        0 <= i < rows_x * rows_z,
    ensures
        0 <= i % rows_x < rows_x,
        0 <= i / rows_x < rows_z,
        i == (i / rows_x) * rows_x + i % rows_x,
        spec_grid(rows_x, rows_z)[i] == spec_instance(rows_x, rows_z, i % rows_x, i / rows_x),
{
    assert(rows_x > 0) by (nonlinear_arith)
        requires
            0 <= rows_x,
            0 <= i < rows_x * rows_z,
    ;
    lemma_mod_pos_bound(i, rows_x);
    lemma_fundamental_div_mod(i, rows_x);
    let q = i / rows_x;
    let r = i % rows_x;
    assert(i == rows_x * q + r);
    lemma_mul_is_commutative(rows_x, q);
    assert(0 <= q < rows_z) by (nonlinear_arith)
        requires
            i == q * rows_x + r,
            0 <= r < rows_x,
            0 <= i < rows_x * rows_z,
    ;
}

/// No two entries of the grid stand at the same position.
pub proof fn lemma_positions_distinct(rows_x: int, rows_z: int, i: int, j: int)
    requires
        0 <= rows_x <= u32::MAX,
        0 <= rows_z <= u32::MAX,
        0 <= i < rows_x * rows_z,
        0 <= j < rows_x * rows_z,
        i != j,
    ensures
        spec_grid(rows_x, rows_z)[i].position != spec_grid(rows_x, rows_z)[j].position,
{
    lemma_entry_is_cell(rows_x, rows_z, i);
    lemma_entry_is_cell(rows_x, rows_z, j);
}

/// The instances of a grid, fixed once made.
pub struct State {
    instances: Vec<Instance>,
    rows_x: u32,
    rows_z: u32,
}

impl State {
    /// The instances in upload order.
    pub closed spec fn view(&self) -> Seq<Instance> {
        self.instances@
    }

    /// Number of cells along x.
    pub closed spec fn spec_rows_x(&self) -> int {
        self.rows_x as int
    }

    /// Number of cells along z.
    pub closed spec fn spec_rows_z(&self) -> int {
        self.rows_z as int
    }

    /// The instances are exactly the grid of the state's dimensions, and
    /// their number fits the 32-bit instance range of a draw call.
    pub closed spec fn wf(&self) -> bool {
        &&& self.instances@ == spec_grid(self.rows_x as int, self.rows_z as int)
        &&& self.rows_x * self.rows_z <= u32::MAX
    }

    /// A grid's instances are as many as its cells, and their number fits
    /// the instance range of a draw call.
    pub proof fn lemma_len(&self)
        requires
            self.wf(),
        ensures
            self@.len() == self.spec_rows_x() * self.spec_rows_z(),
            self@.len() <= u32::MAX,
            self@ == spec_grid(self.spec_rows_x(), self.spec_rows_z()),
    {
        assert(self.rows_x * self.rows_z >= 0) by (nonlinear_arith);
    }

    /// Builds the grid of `rows_x` by `rows_z` instances, centred on the
    /// origin.
    pub fn new(rows_x: u32, rows_z: u32) -> (state: State)
        requires
            rows_x * rows_z <= u32::MAX,
        ensures
            state.wf(),
            state.spec_rows_x() == rows_x,
            state.spec_rows_z() == rows_z,
            state@ == spec_grid(rows_x as int, rows_z as int),
    {
        let mut instances: Vec<Instance> = Vec::new();
        let mut z: u32 = 0;
        while z < rows_z
            invariant
                z <= rows_z,
                instances@.len() == z * rows_x,
                forall|i: int|
                    0 <= i < instances@.len() ==> instances@[i] == spec_instance(
                        rows_x as int,
                        rows_z as int,
                        i % (rows_x as int),
                        i / (rows_x as int),
                    ),
            decreases rows_z - z,
        {
            let mut x: u32 = 0;
            while x < rows_x
                invariant
                    z < rows_z,
                    x <= rows_x,
                    instances@.len() == z * rows_x + x,
                    forall|i: int|
                        0 <= i < instances@.len() ==> instances@[i] == spec_instance(
                            rows_x as int,
                            rows_z as int,
                            i % (rows_x as int),
                            i / (rows_x as int),
                        ),
                decreases rows_x - x,
            {
                proof {
                    lemma_fundamental_div_mod_converse(
                        z * rows_x + x,
                        rows_x as int,
                        z as int,
                        x as int,
                    );
                }
                let instance = Self::instance_at(rows_x, rows_z, x, z);
                instances.push(instance);
                x = x + 1;
            }
            proof {
                assert(z * rows_x + rows_x == (z + 1) * rows_x) by (nonlinear_arith);
            }
            z = z + 1;
        }
        proof {
            lemma_mul_is_commutative(rows_x as int, rows_z as int);
            assert(instances@ =~= spec_grid(rows_x as int, rows_z as int));
        }
        State { instances, rows_x, rows_z }
    }

    /// The instance of cell `(x, z)` in a grid of `rows_x` by `rows_z`.
    pub fn instance_at(rows_x: u32, rows_z: u32, x: u32, z: u32) -> (instance: Instance)
        ensures
            instance == spec_instance(rows_x as int, rows_z as int, x as int, z as int),
    {
        let px: i64 = 2 * (x as i64) - (rows_x as i64);
        let pz: i64 = 2 * (z as i64) - (rows_z as i64);
        let position = HalfVec3 { x: px, y: 0, z: pz };
        let rotation = if px == 0 && pz == 0 {
            Rotation { axis: Axis::UnitZ, degrees: 0 }
        } else {
            Rotation { axis: Axis::Position, degrees: 45 }
        };
        Instance { position, rotation }
    }

    /// How many instances a draw covers.
    pub fn num_instances(&self) -> (n: usize)
        requires
            self.wf(),
        ensures
            n == self@.len(),
            n == self.spec_rows_x() * self.spec_rows_z(),
            n <= u32::MAX,
    {
        proof {
            assert(self.rows_x * self.rows_z >= 0) by (nonlinear_arith);
        }
        self.instances.len()
    }

    /// The instance at `index` in upload order.
    pub fn instance(&self, index: usize) -> (instance: Instance)
        requires
            self.wf(),
            index < self@.len(),
        ensures
            instance == self@[index as int],
    {
        self.instances[index]
    }
}

/// The format of one vertex attribute.
#[derive(Clone, Copy, Debug, PartialEq, Eq, Structural)]
pub enum VertexFormat {
    /// Four 32-bit components.
    Float4,
}

/// How often the vertex stage steps to the next record of a buffer.
#[derive(Clone, Copy, Debug, PartialEq, Eq, Structural)]
pub enum StepMode {
    Vertex,
    Instance,
}

/// One attribute of a vertex buffer record.
#[derive(Clone, Copy, Debug, PartialEq, Eq, Structural)]
pub struct VertexAttribute {
    pub offset: u64,
    pub shader_location: u32,
    pub format: VertexFormat,
}

/// The layout of a vertex buffer.
#[derive(Debug)]
pub struct VertexLayout {
    pub array_stride: u64,
    pub step_mode: StepMode,
    pub attributes: Vec<VertexAttribute>,
}

/// Bytes that an attribute of the given format takes.
pub open spec fn spec_format_size(format: VertexFormat) -> int {
    match format {
        VertexFormat::Float4 => 16,
    }
}

/// Row `row` of the instance matrix as a vertex attribute: rows follow one
/// another sixteen bytes apart, at shader locations from 5 on.
pub open spec fn spec_row_attribute(row: int) -> VertexAttribute {
    VertexAttribute {
        offset: (16 * row) as u64,
        shader_location: (5 + row) as u32,
        format: VertexFormat::Float4,
    }
}

/// The attributes of the instance record: its four rows.
pub open spec fn spec_instance_attributes() -> Seq<VertexAttribute> {
    Seq::new(4, |row: int| spec_row_attribute(row))
}

/// The attributes of the instance record lie one behind the other and fill
/// the record exactly.
pub proof fn lemma_attributes_tile_record()
    ensures
        spec_instance_attributes()[0].offset == 0,
        forall|row: int|
            0 <= row < 3 ==> (#[trigger] spec_instance_attributes()[row]).offset + spec_format_size(
                spec_instance_attributes()[row].format,
            ) == spec_instance_attributes()[row + 1].offset,
        spec_instance_attributes()[3].offset + spec_format_size(
            spec_instance_attributes()[3].format,
        ) == InstanceRaw::SIZE,
{
}

/// The per-instance record of the vertex buffer: a model matrix of four
/// rows of four 32-bit components. The record's contents are the caller's;
/// this type describes where they lie.
pub struct InstanceRaw {}

impl InstanceRaw {
    /// Bytes in one record.
    pub const SIZE: u64 = 64;

    /// The layout of the instance buffer: one record per instance, its four
    /// rows as four attributes.
    pub fn desc() -> (layout: VertexLayout)
        ensures
            layout.array_stride == Self::SIZE,
            layout.step_mode == StepMode::Instance,
            layout.attributes@ == spec_instance_attributes(),
    {
        let mut attributes: Vec<VertexAttribute> = Vec::new();
        let mut row: u32 = 0;
        while row < 4
            invariant
                row <= 4,
                attributes@.len() == row,
                forall|r: int| 0 <= r < row ==> attributes@[r] == spec_row_attribute(r),
            decreases 4 - row,
        {
            attributes.push(
                VertexAttribute {
                    offset: 16 * (row as u64),
                    shader_location: 5 + row,
                    format: VertexFormat::Float4,
                },
            );
            row = row + 1;
        }
        proof {
            assert(attributes@ =~= spec_instance_attributes());
        }
        VertexLayout { array_stride: Self::SIZE, step_mode: StepMode::Instance, attributes }
    }
}

impl State {
    /// Bytes that the instance buffer holds: one record per instance.
    pub fn buffer_size(&self) -> (bytes: u64)
        requires
            self.wf(),
        ensures
            bytes == InstanceRaw::SIZE * self@.len(),
    {
        let n: usize = self.num_instances();
        InstanceRaw::SIZE * (n as u64)
    }

    /// Where the record of the instance at `index` starts in the buffer.
    pub fn record_offset(&self, index: usize) -> (offset: u64)
        requires
            self.wf(),
            index < self@.len(),
        ensures
            offset == InstanceRaw::SIZE * index,
            offset + InstanceRaw::SIZE <= InstanceRaw::SIZE * self@.len(),
    {
        let n: usize = self.num_instances();
        InstanceRaw::SIZE * (index as u64)
    }
}

} // verus!
