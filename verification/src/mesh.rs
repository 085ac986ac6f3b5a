//! The quad's vertex and index buffers.

use vstd::prelude::*;
use vstd::slice::slice_to_vec;
use crate::command::{
    issue, issue_all, ops, BufferContents, BufferData, BufferTarget, BufferUsage, Command, Next, Op,
    Reply, Step,
};
use crate::geometry::Ratio;
use crate::shader::{Lookup, LookupState, Program, ProgramState};
use crate::texture::Texture;

verus! {

/// One corner of the quad: a position in normalized device coordinates and
/// the texture coordinate that is mapped onto it, each a pair of numbers
/// that the vertex buffer holds as 32-bit floats.
#[derive(Clone, Copy, Debug, PartialEq, Eq)]
pub struct Vertex {
    pub position: [Ratio; 2],
    pub tex_coords: [Ratio; 2],
}

/// The bytes that one 32-bit float takes.
pub const FLOAT_BYTES: usize = 4;

/// The bytes that one vertex takes in the vertex buffer: four 32-bit
/// floats.
pub const VERTEX_BYTES: usize = 16;

/// The bytes that one index takes in the index buffer.
pub const INDEX_BYTES: usize = 4;

/// The bytes between the start of a vertex and its texture coordinate.
pub const TEX_COORDS_OFFSET: usize = 8;

/// The bytes from one vertex to the next.
pub const STRIDE: i32 = 16;

/// The number of floats in a position and in a texture coordinate.
pub const COMPONENTS: i32 = 2;

/// The uniform that names the texture unit to sample from.
pub open spec fn sampler() -> Seq<char> {
    "texture0"@
}

/// The number of vertices of a quad.
pub const QUAD_VERTICES: usize = 4;

/// The number of indices of a quad: two triangles.
pub const QUAD_INDICES: usize = 6;

/// Whether so many vertices and indices make one quad.
pub open spec fn one_quad(vertices: nat, indices: nat) -> bool {
    vertices == QUAD_VERTICES && indices == QUAD_INDICES
}

/// The buffers of one quad. It owns the driver's vertex array object,
/// vertex buffer and index buffer, and keeps a copy of the four vertices
/// that the vertex buffer holds.
#[derive(Debug, PartialEq, Eq)]
pub struct Mesh {
    vertices: Vec<Vertex>,
    vao: u32,
    vbo: u32,
    ebo: u32,
    num_indices: i32,
}

/// What a `Mesh` holds: the vertices, the names of the vertex array object,
/// of the vertex buffer and of the index buffer, and the number of indices.
pub struct MeshState {
    pub vertices: Seq<Vertex>,
    pub vao: u32,
    pub vbo: u32,
    pub ebo: u32,
    pub num_indices: i32,
}

impl MeshState {
    /// The mesh after its vertices were replaced: nothing else changes.
    pub open spec fn updated(self, vertices: Seq<Vertex>) -> MeshState {
        MeshState { vertices, ..self }
    }
}

impl View for Mesh {
    type V = MeshState;

    closed spec fn view(&self) -> MeshState {
        MeshState {
            vertices: self.vertices@,
            vao: self.vao,
            vbo: self.vbo,
            ebo: self.ebo,
            num_indices: self.num_indices,
        }
    }
}

/// The commands that describe the layout of a vertex to the vertex array
/// that is bound: attribute 0 is the position, two floats at the start of
/// a vertex; attribute 1 is the texture coordinate, the two floats after
/// it; one vertex follows the other without a gap.
pub open spec fn layout_ops() -> Seq<Op> {
    seq![
        Op::EnableVertexAttribArray { index: 0 },
        Op::VertexAttribPointer { index: 0, components: COMPONENTS, stride: STRIDE, offset: 0 },
        Op::EnableVertexAttribArray { index: 1 },
        Op::VertexAttribPointer {
            index: 1,
            components: COMPONENTS,
            stride: STRIDE,
            offset: TEX_COORDS_OFFSET,
        },
    ]
}

/// The layout is packed: a vertex is its position and its texture
/// coordinate and nothing else, the texture coordinate follows the position
/// at once, and the stride is the size of one vertex. The buffers of a quad
/// take 64 and 24 bytes.
pub proof fn layout_is_packed()
    ensures
        TEX_COORDS_OFFSET == COMPONENTS * FLOAT_BYTES,
        VERTEX_BYTES == 2 * COMPONENTS * FLOAT_BYTES,
        STRIDE == VERTEX_BYTES,
        QUAD_VERTICES * VERTEX_BYTES == 64,
        QUAD_INDICES * INDEX_BYTES == 24,
{
}

impl Vertex {
    /// Describes the layout of a vertex to the vertex array that is bound.
    pub fn vertex_attrib_pointer() -> (run: Vec<Command>)
        ensures
            ops(run@) == layout_ops(),
    {
        let run = vec![
            Command::EnableVertexAttribArray { index: 0 },
            Command::VertexAttribPointer {
                index: 0,
                components: COMPONENTS,
                stride: STRIDE,
                offset: 0,
            },
            Command::EnableVertexAttribArray { index: 1 },
            Command::VertexAttribPointer {
                index: 1,
                components: COMPONENTS,
                stride: STRIDE,
                offset: TEX_COORDS_OFFSET,
            },
        ];
        assert(ops(run@) =~= layout_ops());
        run
    }
}

/// How far the making of a mesh has come.
#[derive(Clone, Copy, Debug, PartialEq, Eq)]
pub enum BuildStage {
    /// The vertex array object was asked for.
    VertexArray,
    /// The vertex buffer was asked for.
    VertexBuffer { vao: u32 },
    /// The index buffer was asked for.
    IndexBuffer { vao: u32, vbo: u32 },
}

/// The making of a mesh, waiting for an answer of the driver.
#[derive(Debug)]
pub struct Build {
    vertices: Vec<Vertex>,
    indices: Vec<u32>,
    stage: BuildStage,
}

/// What a `Build` holds.
pub struct BuildState {
    pub vertices: Seq<Vertex>,
    pub indices: Seq<u32>,
    pub stage: BuildStage,
}

impl View for Build {
    type V = BuildState;

    closed spec fn view(&self) -> BuildState {
        BuildState { vertices: self.vertices@, indices: self.indices@, stage: self.stage }
    }
}

/// The commands that the making of a mesh issues after `reply`.
///
/// The vertex buffer is allocated for exactly the vertices given, to be
/// rewritten later, and the index buffer for exactly the indices given, to
/// be written once. The layout of a vertex is described once the vertex
/// buffer is filled.
pub open spec fn build_ops(build: BuildState, reply: Reply) -> Seq<Op> {
    match (build.stage, reply) {
        (BuildStage::VertexArray, Reply::Name(vao)) => seq![
            Op::BindVertexArray { array: vao },
            Op::GenBuffer,
        ],
        (BuildStage::VertexBuffer { .. }, Reply::Name(vbo)) => seq![
            Op::BindBuffer { target: BufferTarget::Array, buffer: vbo },
            Op::BufferData {
                target: BufferTarget::Array,
                size: (build.vertices.len() * VERTEX_BYTES) as usize,
                contents: BufferData::Vertices(build.vertices),
                usage: BufferUsage::DynamicDraw,
            },
        ] + layout_ops() + seq![Op::GenBuffer],
        (BuildStage::IndexBuffer { .. }, Reply::Name(ebo)) => seq![
            Op::BindBuffer { target: BufferTarget::ElementArray, buffer: ebo },
            Op::BufferData {
                target: BufferTarget::ElementArray,
                size: (build.indices.len() * INDEX_BYTES) as usize,
                contents: BufferData::Indices(build.indices),
                usage: BufferUsage::StaticDraw,
            },
            Op::BindVertexArray { array: 0 },
        ],
        _ => seq![],
    }
}

/// The stage that the making of a mesh reaches after `reply`, if it is not
/// over.
pub open spec fn build_turn(stage: BuildStage, reply: Reply) -> Option<BuildStage> {
    match (stage, reply) {
        (BuildStage::VertexArray, Reply::Name(vao)) => Some(BuildStage::VertexBuffer { vao }),
        (BuildStage::VertexBuffer { vao }, Reply::Name(vbo)) => Some(
            BuildStage::IndexBuffer { vao, vbo },
        ),
        (BuildStage::IndexBuffer { .. }, Reply::Name(_)) => None,
        _ => Some(stage),
    }
}

/// The mesh that the making of a mesh ends with, when `ebo` is the name of
/// the index buffer.
pub open spec fn built(build: BuildState, ebo: u32) -> MeshState {
    MeshState {
        vertices: build.vertices,
        vao: match build.stage {
            BuildStage::IndexBuffer { vao, .. } => vao,
            _ => 0,
        },
        vbo: match build.stage {
            BuildStage::IndexBuffer { vbo, .. } => vbo,
            _ => 0,
        },
        ebo,
        num_indices: build.indices.len() as i32,
    }
}

impl Build {
    #[verifier::type_invariant]
    spec fn sized(&self) -> bool {
        one_quad(self.vertices@.len(), self.indices@.len())
    }

    /// Goes on with the making of the mesh after the driver's answer. An
    /// answer that is not a name is passed over.
    pub fn advance(self, reply: Reply) -> (step: Step<Build, Mesh>)
        ensures
            one_quad(self@.vertices.len(), self@.indices.len()),
            ops(step.run@) == build_ops(self@, reply),
            match build_turn(self@.stage, reply) {
                Some(stage) => step.next matches Next::Await(build) && build@ == (BuildState {
                    stage,
                    ..self@
                }),
                None => step.next matches Next::Done(mesh) && reply matches Reply::Name(ebo)
                    && mesh@ == built(self@, ebo),
            },
    {
        proof {
            use_type_invariant(&self);
        }
        let Build { vertices, indices, stage } = self;
        match (stage, reply) {
            (BuildStage::VertexArray, Reply::Name(vao)) => {
                let run = vec![Command::BindVertexArray { array: vao }, Command::GenBuffer];
                assert(ops(run@) =~= build_ops(self@, reply));
                Step {
                    run,
                    next: Next::Await(
                        Build { vertices, indices, stage: BuildStage::VertexBuffer { vao } },
                    ),
                }
            },
            (BuildStage::VertexBuffer { vao }, Reply::Name(vbo)) => {
                let mut run = vec![
                    Command::BindBuffer { target: BufferTarget::Array, buffer: vbo },
                    Command::BufferData {
                        target: BufferTarget::Array,
                        size: vertices.len() * VERTEX_BYTES,
                        contents: BufferContents::Vertices(slice_to_vec(vertices.as_slice())),
                        usage: BufferUsage::DynamicDraw,
                    },
                ];
                assert(ops(run@) =~= build_ops(self@, reply).take(2));
                issue_all(&mut run, Vertex::vertex_attrib_pointer());
                issue(&mut run, Command::GenBuffer);
                assert(ops(run@) =~= build_ops(self@, reply));
                Step {
                    run,
                    next: Next::Await(
                        Build { vertices, indices, stage: BuildStage::IndexBuffer { vao, vbo } },
                    ),
                }
            },
            (BuildStage::IndexBuffer { vao, vbo }, Reply::Name(ebo)) => {
                let num_indices = indices.len() as i32;
                let run = vec![
                    Command::BindBuffer { target: BufferTarget::ElementArray, buffer: ebo },
                    Command::BufferData {
                        target: BufferTarget::ElementArray,
                        size: indices.len() * INDEX_BYTES,
                        contents: BufferContents::Indices(indices),
                        usage: BufferUsage::StaticDraw,
                    },
                    Command::BindVertexArray { array: 0 },
                ];
                assert(ops(run@) =~= build_ops(self@, reply));
                Step { run, next: Next::Done(Mesh { vertices, vao, vbo, ebo, num_indices }) }
            },
            _ => {
                let run = Vec::new();
                assert(ops(run@) =~= build_ops(self@, reply));
                Step { run, next: Next::Await(Build { vertices, indices, stage }) }
            },
        }
    }
}

/// The commands that draw the mesh once the sampler is set: the texture is
/// bound to unit 0, and all indices are drawn from the mesh's vertex array.
pub open spec fn draw_ops(mesh: MeshState, texture: u32) -> Seq<Op> {
    seq![
        Op::ActiveTexture { unit: 0 },
        Op::BindTexture { texture },
        Op::BindVertexArray { array: mesh.vao },
        Op::DrawElements { count: mesh.num_indices },
    ]
}

impl Mesh {
    #[verifier::type_invariant]
    spec fn sized(&self) -> bool {
        self.vertices@.len() == QUAD_VERTICES
    }

    /// Starts the making of a mesh of the four vertices given, drawn in the
    /// order of the six indices given: hands back the making, which waits for
    /// the name of the vertex array object, and the command that asks for
    /// it.
    pub fn new(vertices: Vec<Vertex>, indices: &[u32]) -> (start: (Build, Vec<Command>))
        requires
            one_quad(vertices@.len(), indices@.len()),
        ensures
            start.0@ == (BuildState {
                vertices: vertices@,
                indices: indices@,
                stage: BuildStage::VertexArray,
            }),
            ops(start.1@) == seq![Op::GenVertexArray],
    {
        let run = vec![Command::GenVertexArray];
        assert(ops(run@) =~= seq![Op::GenVertexArray]);
        (Build { vertices, indices: slice_to_vec(indices), stage: BuildStage::VertexArray }, run)
    }

    /// The name of the vertex array object.
    pub fn vao(&self) -> (vao: u32)
        ensures
            vao == self@.vao,
    {
        self.vao
    }

    /// The name of the vertex buffer.
    pub fn vbo(&self) -> (vbo: u32)
        ensures
            vbo == self@.vbo,
    {
        self.vbo
    }

    /// The name of the index buffer.
    pub fn ebo(&self) -> (ebo: u32)
        ensures
            ebo == self@.ebo,
    {
        self.ebo
    }

    /// The number of indices that a draw covers.
    pub fn num_indices(&self) -> (count: i32)
        ensures
            count == self@.num_indices,
    {
        self.num_indices
    }

    /// The vertices that the vertex buffer holds.
    pub fn vertices(&self) -> (vertices: &Vec<Vertex>)
        ensures
            vertices@ == self@.vertices,
            vertices@.len() == QUAD_VERTICES,
    {
        proof {
            use_type_invariant(self);
        }
        &self.vertices
    }

    /// Draws the mesh with `texture`, by the program in use.
    ///
    /// The sampler uniform of `program` is set to unit 0 first. Where its
    /// location is not cached yet the driver is asked for it and nothing
    /// else is issued: `resume` draws once the answer is there.
    pub fn render(&self, program: &mut Program, texture: &Texture) -> (step: Step<Lookup, ()>)
        ensures
            final(program)@ == old(program)@,
            old(program)@.locations.contains_key(sampler()) ==> step.next is Done && ops(step.run@)
                == seq![Op::Uniform1i { location: old(program)@.locations[sampler()], value: 0 }]
                + draw_ops(self@, texture@.id),
            !old(program)@.locations.contains_key(sampler()) ==> ops(step.run@) == seq![
                Op::GetUniformLocation { program: old(program)@.id, name: sampler() },
            ] && (step.next matches Next::Await(lookup) && lookup@ == (LookupState {
                name: sampler(),
                value: 0,
            })),
    {
        let step = program.set_int("texture0", 0);
        self.draw(step, texture)
    }

    /// Goes on with `render` after the driver's answer: caches the location
    /// of the sampler uniform, sets it, and draws. An answer that is not a
    /// value is passed over.
    pub fn resume(&self, lookup: Lookup, program: &mut Program, texture: &Texture, reply: Reply) -> (step:
        Step<Lookup, ()>)
        ensures
            match reply {
                Reply::Value(location) => {
                    &&& final(program)@ == (ProgramState {
                        id: old(program)@.id,
                        locations: old(program)@.locations.insert(lookup@.name, location),
                    })
                    &&& ops(step.run@) == seq![Op::Uniform1i { location, value: lookup@.value }]
                        + draw_ops(self@, texture@.id)
                    &&& step.next is Done
                },
                _ => {
                    &&& final(program)@ == old(program)@
                    &&& ops(step.run@) == Seq::<Op>::empty()
                    &&& step.next matches Next::Await(pending) && pending@ == lookup@
                },
            },
    {
        let step = lookup.advance(program, reply);
        self.draw(step, texture)
    }

    /// Appends the drawing to a step that set the sampler, if it did.
    fn draw(&self, step: Step<Lookup, ()>, texture: &Texture) -> (drawn: Step<Lookup, ()>)
        ensures
            step.next is Await ==> drawn == step,
            step.next is Done ==> drawn.next is Done && ops(drawn.run@) == ops(step.run@)
                + draw_ops(self@, texture@.id),
    {
        match step.next {
            Next::Await(_) => step,
            Next::Done(()) => {
                let mut run = step.run;
                issue(&mut run, Command::ActiveTexture { unit: 0 });
                issue(&mut run, Command::BindTexture { texture: texture.id() });
                issue(&mut run, Command::BindVertexArray { array: self.vao });
                issue(&mut run, Command::DrawElements { count: self.num_indices });
                assert(ops(run@) =~= ops(step.run@) + draw_ops(self@, texture@.id));
                Step { run, next: Next::Done(()) }
            },
        }
    }

    /// Replaces the four vertices: the whole vertex buffer is rewritten in
    /// place. The buffer is neither allocated again nor given another name,
    /// and the index buffer is not touched.
    pub fn update_data(&mut self, vertices: Vec<Vertex>) -> (run: Vec<Command>)
        requires
            vertices@.len() == QUAD_VERTICES,
        ensures
            old(self)@.vertices.len() == QUAD_VERTICES,
            final(self)@ == old(self)@.updated(vertices@),
            ops(run@) == seq![
                Op::BufferSubData {
                    target: BufferTarget::Array,
                    offset: 0,
                    size: (vertices@.len() * VERTEX_BYTES) as usize,
                    contents: BufferData::Vertices(vertices@),
                },
            ],
    {
        proof {
            use_type_invariant(&*self);
        }
        let run = vec![
            Command::BufferSubData {
                target: BufferTarget::Array,
                offset: 0,
                size: vertices.len() * VERTEX_BYTES,
                contents: BufferContents::Vertices(slice_to_vec(vertices.as_slice())),
            },
        ];
        assert(ops(run@) =~= seq![
            Op::BufferSubData {
                target: BufferTarget::Array,
                offset: 0,
                size: (vertices@.len() * VERTEX_BYTES) as usize,
                contents: BufferData::Vertices(vertices@),
            },
        ]);
        self.vertices = vertices;
        run
    }

    /// Gives the buffers and the vertex array object back to the driver:
    /// the index buffer first, then the vertex buffer, then the vertex
    /// array object.
    pub fn release(self) -> (run: Vec<Command>)
        ensures
            ops(run@) == seq![
                Op::DeleteBuffer { buffer: self@.ebo },
                Op::DeleteBuffer { buffer: self@.vbo },
                Op::DeleteVertexArray { array: self@.vao },
            ],
    {
        let run = vec![
            Command::DeleteBuffer { buffer: self.ebo },
            Command::DeleteBuffer { buffer: self.vbo },
            Command::DeleteVertexArray { array: self.vao },
        ];
        assert(ops(run@) =~= seq![
            Op::DeleteBuffer { buffer: self@.ebo },
            Op::DeleteBuffer { buffer: self@.vbo },
            Op::DeleteVertexArray { array: self@.vao },
        ]);
        run
    }
}

} // verus!
