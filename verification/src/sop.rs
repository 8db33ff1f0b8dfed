//! Geometry operators: the geometry that a plugin of this kind builds, what
//! such a plugin implements, and the adapter through which the host drives
//! it.
//!
//! A coordinate is a single-precision number carried as its 32-bit pattern.
use crate::inputs::OperatorInputs;
use crate::marshal::{host_encoding, wrapped_i32, HostString};
use crate::op::{
    asked_cell, entry_at, error_string, info_chop_chan, info_dat_entry, info_dat_size, info_popup_string,
    num_info_chop_chans, pulse_pressed, setup_parameters, warning_string, HostInfoDatSize, Op,
};
use crate::params::{declare_all, ParameterManager};
use vstd::prelude::*;

verus! {

/// A point in space.
#[derive(Clone, Copy, Debug, PartialEq, Eq, Structural)]
pub struct Position {
    pub x: u32,
    pub y: u32,
    pub z: u32,
}

/// A triangle, by the indices of its three corner points.
#[derive(Clone, Copy, Debug, PartialEq, Eq, Structural)]
pub struct Triangle {
    pub a: u32,
    pub b: u32,
    pub c: u32,
}

/// The most points that a geometry can hold: the host counts them in a
/// signed 32-bit integer.
pub const MAX_POINTS: usize = 0x7fff_ffff;

/// The mathematical value of a geometry: its points, and its triangles over
/// them.
pub struct Geometry {
    pub points: Seq<Position>,
    pub triangles: Seq<Triangle>,
}

impl Geometry {
    /// Whether `triangle` has its three corners among the points.
    pub open spec fn holds(self, triangle: Triangle) -> bool {
        triangle.a < self.points.len() && triangle.b < self.points.len() && triangle.c < self.points.len()
    }

    /// Every triangle has its corners among the points, and the points can
    /// be counted by the host.
    pub open spec fn closed_over_points(self) -> bool {
        &&& self.points.len() <= MAX_POINTS
        &&& forall|t: int| 0 <= t < self.triangles.len() ==> self.holds(#[trigger] self.triangles[t])
    }
}

/// The output geometry of a geometry operator for one cook. Points are
/// added one by one and are numbered in that order; a triangle is accepted
/// only over points that are there.
pub struct SopOutput {
    points: Vec<Position>,
    triangles: Vec<Triangle>,
}

impl View for SopOutput {
    type V = Geometry;

    closed spec fn view(&self) -> Geometry {
        Geometry { points: self.points@, triangles: self.triangles@ }
    }
}

impl SopOutput {
    #[verifier::type_invariant]
    spec fn well_formed(&self) -> bool {
        self@.closed_over_points()
    }

    /// A geometry without points or triangles.
    pub fn new() -> (output: SopOutput)
        ensures
            output@.points == Seq::<Position>::empty(),
            output@.triangles == Seq::<Triangle>::empty(),
    {
        SopOutput { points: Vec::new(), triangles: Vec::new() }
    }

    /// The number of points. Every triangle has its corners among them.
    pub fn num_points(&self) -> (n: usize)
        ensures
            n == self@.points.len(),
            self@.closed_over_points(),
    {
        proof {
            use_type_invariant(self);
        }
        self.points.len()
    }

    /// The number of triangles.
    pub fn num_triangles(&self) -> (n: usize)
        ensures
            n == self@.triangles.len(),
    {
        self.triangles.len()
    }

    /// The point at `index`.
    pub fn point(&self, index: usize) -> (position: Position)
        requires
            index < self@.points.len(),
        ensures
            position == self@.points[index as int],
    {
        self.points[index]
    }

    /// The triangle at `index`. Its corners are points of the geometry.
    pub fn triangle(&self, index: usize) -> (triangle: Triangle)
        requires
            index < self@.triangles.len(),
        ensures
            triangle == self@.triangles[index as int],
            self@.holds(triangle),
    {
        proof {
            use_type_invariant(self);
        }
        self.triangles[index]
    }

    /// Adds a point and returns its index, the number of points before it.
    /// A geometry that is full is left as it was, and the answer is `None`.
    pub fn add_point(&mut self, position: Position) -> (index: Option<u32>)
        ensures
            old(self)@.points.len() < MAX_POINTS ==> index == Some(old(self)@.points.len() as u32)
                && final(self)@.points == old(self)@.points.push(position) && final(self)@.triangles == old(
                self,
            )@.triangles,
            old(self)@.points.len() >= MAX_POINTS ==> index is None && *final(self) == *old(self),
    {
        proof {
            use_type_invariant(&*self);
        }
        let count: usize = self.points.len();
        if count >= MAX_POINTS {
            return None;
        }
        let mut taken = SopOutput::new();
        core::mem::swap(self, &mut taken);
        let SopOutput { mut points, triangles } = taken;
        points.push(position);
        proof {
            let before = old(self)@;
            let after = Geometry { points: points@, triangles: triangles@ };
            assert(after.triangles == before.triangles);
            assert forall|t: int| 0 <= t < after.triangles.len() implies after.holds(
                #[trigger] after.triangles[t],
            ) by {
                assert(before.holds(before.triangles[t]));
            }
        }
        *self = SopOutput { points, triangles };
        Some(count as u32)
    }

    /// Adds the triangle over the points `a`, `b` and `c`. It is accepted
    /// when all three are points of the geometry; else the geometry is left
    /// as it was.
    pub fn add_triangle(&mut self, a: u32, b: u32, c: u32) -> (accepted: bool)
        ensures
            accepted <==> old(self)@.holds(Triangle { a, b, c }),
            accepted ==> final(self)@.points == old(self)@.points && final(self)@.triangles == old(
                self,
            )@.triangles.push(Triangle { a, b, c }),
            !accepted ==> *final(self) == *old(self),
    {
        proof {
            use_type_invariant(&*self);
        }
        let count: usize = self.points.len();
        if a as usize >= count || b as usize >= count || c as usize >= count {
            return false;
        }
        let mut taken = SopOutput::new();
        core::mem::swap(self, &mut taken);
        let SopOutput { points, mut triangles } = taken;
        triangles.push(Triangle { a, b, c });
        proof {
            let before = old(self)@;
            let after = Geometry { points: points@, triangles: triangles@ };
            assert(after.points == before.points);
            assert forall|t: int| 0 <= t < after.triangles.len() implies after.holds(
                #[trigger] after.triangles[t],
            ) by {
                if t < before.triangles.len() {
                    assert(before.holds(before.triangles[t]));
                }
            }
        }
        *self = SopOutput { points, triangles };
        true
    }
}

/// The mathematical value of a vertex buffer: its vertices, the indices
/// that draw them, and whether the plugin has declared it complete.
pub struct VertexBuffer {
    pub positions: Seq<Position>,
    pub indices: Seq<u32>,
    pub complete: bool,
}

/// The output of a geometry operator that writes straight into the
/// accelerator's vertex buffer. The plugin asks for the extents, fills them
/// and declares the buffer complete.
pub struct SopVboOutput {
    positions: Vec<Position>,
    indices: Vec<u32>,
    complete: bool,
}

impl View for SopVboOutput {
    type V = VertexBuffer;

    closed spec fn view(&self) -> VertexBuffer {
        VertexBuffer { positions: self.positions@, indices: self.indices@, complete: self.complete }
    }
}

/// `n` vertices at the origin.
pub open spec fn origin_vertices(n: nat) -> Seq<Position> {
    Seq::new(n, |i: int| Position { x: 0, y: 0, z: 0 })
}

/// `n` indices of the first vertex.
pub open spec fn zero_indices(n: nat) -> Seq<u32> {
    Seq::new(n, |i: int| 0u32)
}

impl SopVboOutput {
    /// A buffer without vertices or indices.
    pub fn new() -> (output: SopVboOutput)
        ensures
            output@.positions == Seq::<Position>::empty(),
            output@.indices == Seq::<u32>::empty(),
            !output@.complete,
    {
        SopVboOutput { positions: Vec::new(), indices: Vec::new(), complete: false }
    }

    /// Gives the buffer `num_vertices` vertices, all at the origin, and
    /// `num_indices` indices, all zero. What it held before is gone.
    pub fn alloc_vbo(&mut self, num_vertices: usize, num_indices: usize)
        ensures
            final(self)@.positions == origin_vertices(num_vertices as nat),
            final(self)@.indices == zero_indices(num_indices as nat),
            !final(self)@.complete,
    {
        let mut positions: Vec<Position> = Vec::new();
        while positions.len() < num_vertices
            invariant
                positions@.len() <= num_vertices,
                forall|i: int| 0 <= i < positions@.len() ==> positions@[i] == (Position { x: 0, y: 0, z: 0 }),
            decreases num_vertices - positions@.len(),
        {
            positions.push(Position { x: 0, y: 0, z: 0 });
        }
        let mut indices: Vec<u32> = Vec::new();
        while indices.len() < num_indices
            invariant
                indices@.len() <= num_indices,
                forall|i: int| 0 <= i < indices@.len() ==> indices@[i] == 0u32,
            decreases num_indices - indices@.len(),
        {
            indices.push(0u32);
        }
        assert(positions@ =~= origin_vertices(num_vertices as nat));
        assert(indices@ =~= zero_indices(num_indices as nat));
        self.positions = positions;
        self.indices = indices;
        self.complete = false;
    }

    /// The number of vertices.
    pub fn num_vertices(&self) -> (n: usize)
        ensures
            n == self@.positions.len(),
    {
        self.positions.len()
    }

    /// The number of indices.
    pub fn num_indices(&self) -> (n: usize)
        ensures
            n == self@.indices.len(),
    {
        self.indices.len()
    }

    /// Whether the plugin has declared the buffer complete.
    pub fn is_complete(&self) -> (complete: bool)
        ensures
            complete == self@.complete,
    {
        self.complete
    }

    /// The vertex at `index`.
    pub fn position(&self, index: usize) -> (position: Position)
        requires
            index < self@.positions.len(),
        ensures
            position == self@.positions[index as int],
    {
        self.positions[index]
    }

    /// Writes the vertex at `index`.
    pub fn set_position(&mut self, index: usize, position: Position)
        requires
            index < old(self)@.positions.len(),
        ensures
            final(self)@.positions == old(self)@.positions.update(index as int, position),
            final(self)@.indices == old(self)@.indices,
            final(self)@.complete == old(self)@.complete,
    {
        self.positions[index] = position;
    }

    /// The index at place `at`.
    pub fn index(&self, at: usize) -> (vertex: u32)
        requires
            at < self@.indices.len(),
        ensures
            vertex == self@.indices[at as int],
    {
        self.indices[at]
    }

    /// Writes the index at place `at`.
    pub fn set_index(&mut self, at: usize, vertex: u32)
        requires
            at < old(self)@.indices.len(),
        ensures
            final(self)@.indices == old(self)@.indices.update(at as int, vertex),
            final(self)@.positions == old(self)@.positions,
            final(self)@.complete == old(self)@.complete,
    {
        self.indices[at] = vertex;
    }

    /// Declares the buffer complete.
    pub fn update_complete(&mut self)
        ensures
            final(self)@.positions == old(self)@.positions,
            final(self)@.indices == old(self)@.indices,
            final(self)@.complete,
    {
        self.complete = true;
    }
}

/// How a geometry operator wants to be scheduled, and where its geometry
/// goes.
#[derive(Clone, Copy, Debug, PartialEq, Eq, Structural)]
pub struct SopGeneralInfo {
    pub cook_every_frame: bool,
    pub cook_every_frame_if_asked: bool,
    /// Whether the operator writes straight into the accelerator's buffer.
    pub direct_to_gpu: bool,
}

/// The order in which a triangle's corners run round its front face.
#[derive(Clone, Copy, Debug, PartialEq, Eq, Structural)]
pub enum Winding {
    CW,
    CCW,
}

/// The scheduling record of a geometry operator as the host reads it.
#[derive(Clone, Copy, Debug, PartialEq, Eq, Structural)]
pub struct HostSopGeneralInfo {
    pub cook_every_frame: bool,
    pub cook_every_frame_if_asked: bool,
    pub direct_to_gpu: bool,
    pub winding: Winding,
}

/// The scheduling of an operator that asks for nothing: it cooks on demand
/// only, and leaves its geometry with the host.
pub open spec fn on_demand() -> SopGeneralInfo {
    SopGeneralInfo { cook_every_frame: false, cook_every_frame_if_asked: false, direct_to_gpu: false }
}

impl Default for SopGeneralInfo {
    fn default() -> (info: SopGeneralInfo)
        ensures
            info == on_demand(),
    {
        SopGeneralInfo { cook_every_frame: false, cook_every_frame_if_asked: false, direct_to_gpu: false }
    }
}

/// The host's scheduling record for what the operator answered. Triangles
/// always run counter-clockwise.
pub open spec fn host_general_info(info: SopGeneralInfo) -> HostSopGeneralInfo {
    HostSopGeneralInfo {
        cook_every_frame: info.cook_every_frame,
        cook_every_frame_if_asked: info.cook_every_frame_if_asked,
        direct_to_gpu: info.direct_to_gpu,
        winding: Winding::CCW,
    }
}

/// What a geometry plugin implements. The cook is its one mandatory
/// capability; a plugin that writes straight into the accelerator's buffer
/// also implements the cook into that buffer.
pub trait Sop: Op {
    /// The operator's scheduling for these inputs.
    open spec fn general_info_of(&self, inputs: &OperatorInputs) -> SopGeneralInfo {
        on_demand()
    }

    /// How the operator wants to be scheduled. Asked before every cook.
    fn general_info(&self, inputs: &OperatorInputs) -> (info: SopGeneralInfo)
        ensures
            info == self.general_info_of(inputs),
    ;

    /// The operator after a cook on these inputs, with the geometry that
    /// the cook leaves.
    spec fn cooked(self, output: SopOutput, inputs: OperatorInputs) -> (Self, Geometry);

    /// Cooks: builds the output geometry from the inputs and the
    /// parameters.
    fn execute(&mut self, output: &mut SopOutput, inputs: &OperatorInputs)
        ensures
            *final(self) == old(self).cooked(*old(output), *inputs).0,
            final(output)@ == old(self).cooked(*old(output), *inputs).1,
    ;

    /// The operator after a cook into the accelerator's buffer, with what
    /// the cook leaves there. An operator without that capability leaves
    /// itself and the buffer as they are.
    open spec fn cooked_vbo(self, output: SopVboOutput, inputs: OperatorInputs) -> (Self, VertexBuffer) {
        (self, output@)
    }

    /// Cooks straight into the accelerator's vertex buffer.
    fn execute_vbo(&mut self, output: &mut SopVboOutput, inputs: &OperatorInputs)
        ensures
            *final(self) == old(self).cooked_vbo(*old(output), *inputs).0,
            final(output)@ == old(self).cooked_vbo(*old(output), *inputs).1,
    ;
}

/// The adapter of one geometry operator. It owns the plugin instance from
/// the host's construct call to its destroy call, and answers every host
/// call in between from it.
pub struct RustSopPluginImpl<P: Sop> {
    pub inner: P,
}

/// Makes the adapter for a new operator node around its plugin instance.
pub fn sop_new<P: Sop>(plugin: P) -> (adapter: RustSopPluginImpl<P>)
    ensures
        adapter.inner == plugin,
{
    RustSopPluginImpl { inner: plugin }
}

impl<P: Sop> RustSopPluginImpl<P> {
    /// Ends the operator: hands the plugin instance back to be dropped. The
    /// adapter is consumed, so no call can follow.
    pub fn destroy(self) -> (plugin: P)
        ensures
            plugin == self.inner,
    {
        self.inner
    }

    /// Answers the host's scheduling question: applies the parameter
    /// snapshot, asks the operator, and fills the host's record.
    pub fn getGeneralInfo(&mut self, info: &mut HostSopGeneralInfo, inputs: &OperatorInputs)
        ensures
            final(self).inner == old(self).inner.with_params(inputs.params),
            *final(info) == host_general_info(final(self).inner.general_info_of(inputs)),
    {
        self.inner.update_params(inputs.params());
        let gen_info = self.inner.general_info(inputs);
        info.cook_every_frame = gen_info.cook_every_frame;
        info.cook_every_frame_if_asked = gen_info.cook_every_frame_if_asked;
        info.direct_to_gpu = gen_info.direct_to_gpu;
        info.winding = Winding::CCW;
    }

    /// Cooks the operator into the host's geometry: applies the parameter
    /// snapshot, then has the operator build the geometry.
    pub fn execute(&mut self, outputs: &mut SopOutput, inputs: &OperatorInputs)
        ensures
            final(self).inner == old(self).inner.with_params(inputs.params).cooked(*old(outputs), *inputs).0,
            final(outputs)@ == old(self).inner.with_params(inputs.params).cooked(*old(outputs), *inputs).1,
    {
        self.inner.update_params(inputs.params());
        self.inner.execute(outputs, inputs);
    }

    /// Cooks the operator into the accelerator's vertex buffer: applies the
    /// parameter snapshot, then has the operator fill the buffer.
    pub fn executeVBO(&mut self, output: &mut SopVboOutput, inputs: &OperatorInputs)
        ensures
            final(self).inner == old(self).inner.with_params(inputs.params).cooked_vbo(
                *old(output),
                *inputs,
            ).0,
            final(output)@ == old(self).inner.with_params(inputs.params).cooked_vbo(*old(output), *inputs).1,
    {
        self.inner.update_params(inputs.params());
        self.inner.execute_vbo(output, inputs);
    }

    /// Answers the host's question for the number of info channels.
    pub fn getNumInfoCHOPChans(&mut self) -> (n: i32)
        ensures
            *final(self) == *old(self),
            n == wrapped_i32(old(self).inner.info_chop_len() as int),
    {
        num_info_chop_chans(&self.inner)
    }

    /// Answers the host's question for the info channel at `index`.
    pub fn getInfoCHOPChan(&mut self, index: i32, name: &mut HostString, value: &mut u32)
        ensures
            *final(self) == *old(self),
            match entry_at(index, old(self).inner.info_chop_len() as int) {
                Some(i) => {
                    &&& final(name)@ == host_encoding(old(self).inner.info_chop_entry(i).0)
                    &&& *final(value) == old(self).inner.info_chop_entry(i).1
                },
                None => *final(name) == *old(name) && *final(value) == *old(value),
            },
    {
        info_chop_chan(&self.inner, index, name, value);
    }

    /// Answers the host's question for the size of the info table.
    pub fn getInfoDATSize(&mut self, info: &mut HostInfoDatSize) -> (present: bool)
        ensures
            *final(self) == *old(self),
            match old(self).inner.info_dat_extent() {
                Some((rows, cols)) => {
                    &&& present
                    &&& final(info).rows == wrapped_i32(rows as int)
                    &&& final(info).cols == wrapped_i32(cols as int)
                    &&& final(info).by_column == old(info).by_column
                },
                None => !present && *final(info) == *old(info),
            },
    {
        info_dat_size(&self.inner, info)
    }

    /// Answers the host's question for a cell of the info table. The text
    /// of a cell inside the table is copied out, an empty one too; for any
    /// other pair of indices the host's storage is left as it was.
    pub fn getInfoDATEntry(&mut self, index: i32, entryIndex: i32, entry: &mut HostString)
        ensures
            *final(self) == *old(self),
            match asked_cell(&old(self).inner, index, entryIndex) {
                Some(text) => final(entry)@ == host_encoding(text),
                None => *final(entry) == *old(entry),
            },
    {
        info_dat_entry(&self.inner, index, entryIndex, entry);
    }

    /// Copies the operator's warning into the host's storage.
    pub fn getWarningString(&mut self, warning: &mut HostString)
        ensures
            *final(self) == *old(self),
            final(warning)@ == host_encoding(old(self).inner.warning_text()),
    {
        warning_string(&self.inner, warning);
    }

    /// Copies the operator's error into the host's storage.
    pub fn getErrorString(&mut self, error: &mut HostString)
        ensures
            *final(self) == *old(self),
            final(error)@ == host_encoding(old(self).inner.error_text()),
    {
        error_string(&self.inner, error);
    }

    /// Copies the operator's information text into the host's storage.
    pub fn getInfoPopupString(&mut self, info: &mut HostString)
        ensures
            *final(self) == *old(self),
            final(info)@ == host_encoding(old(self).inner.info_text()),
    {
        info_popup_string(&self.inner, info);
    }

    /// Has the operator declare its parameters in the host's sink.
    pub fn setupParameters(&mut self, manager: &mut ParameterManager)
        ensures
            *final(self) == *old(self),
            final(manager)@ == declare_all(old(manager)@, old(self).inner.declared_params()),
    {
        setup_parameters(&self.inner, manager);
    }

    /// Passes on that the pulse parameter `name` was pressed.
    pub fn pulsePressed(&mut self, name: &str)
        ensures
            final(self).inner == old(self).inner.pulsed(name@),
    {
        pulse_pressed(&mut self.inner, name);
    }
}

/// Scheduling is a function of the operator and its inputs: a second query
/// with the same inputs leaves the operator as the first left it, and is
/// answered as the first was.
pub proof fn lemma_queries_repeatable<P: Sop>(plugin: P, inputs: OperatorInputs)
    ensures
        ({
            let once = plugin.with_params(inputs.params);
            let twice = once.with_params(inputs.params);
            &&& twice == once
            &&& host_general_info(twice.general_info_of(&inputs)) == host_general_info(
                once.general_info_of(&inputs),
            )
        }),
{
    plugin.with_params_settles(inputs.params);
}

} // verus!
