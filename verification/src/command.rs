//! The requests that the crate makes of the graphics driver, as data.
//!
//! Every `Command` stands for exactly one call of the driver. The crate hands
//! commands out in the order in which they are to be run; whoever owns the
//! rendering context runs them and, where an operation waits for an answer,
//! hands back the `Reply` to the last command of the batch.

use vstd::prelude::*;
use crate::mesh::Vertex;

verus! {

/// The stage of the pipeline that a shader is compiled for.
#[derive(Clone, Copy, Debug, PartialEq, Eq)]
pub enum ShaderKind {
    Vertex,
    Fragment,
}

/// The binding point of a buffer.
#[derive(Clone, Copy, Debug, PartialEq, Eq)]
pub enum BufferTarget {
    /// Vertex attributes.
    Array,
    /// Vertex indices.
    ElementArray,
}

/// How the contents of a buffer are expected to be used.
#[derive(Clone, Copy, Debug, PartialEq, Eq)]
pub enum BufferUsage {
    /// Rewritten repeatedly, drawn from many times.
    DynamicDraw,
    /// Written once, drawn from many times.
    StaticDraw,
}

/// A sampling parameter of a two-dimensional texture.
#[derive(Clone, Copy, Debug, PartialEq, Eq)]
pub enum TextureParameter {
    WrapS,
    WrapT,
    MinFilter,
    MagFilter,
}

/// A value of a sampling parameter.
#[derive(Clone, Copy, Debug, PartialEq, Eq)]
pub enum TextureSetting {
    ClampToEdge,
    LinearMipmapLinear,
    Linear,
}

/// What is written into a buffer.
#[derive(Clone, Debug, PartialEq, Eq)]
pub enum BufferContents {
    /// Vertices, each laid out as four 32-bit floats: the position, then the
    /// texture coordinate.
    Vertices(Vec<Vertex>),
    /// 32-bit unsigned indices.
    Indices(Vec<u32>),
}

/// What a `BufferContents` holds.
pub enum BufferData {
    Vertices(Seq<Vertex>),
    Indices(Seq<u32>),
}

impl View for BufferContents {
    type V = BufferData;

    open spec fn view(&self) -> BufferData {
        match self {
            BufferContents::Vertices(vertices) => BufferData::Vertices(vertices@),
            BufferContents::Indices(indices) => BufferData::Indices(indices@),
        }
    }
}

/// One call of the graphics driver.
///
/// Object names (`shader`, `program`, `texture`, `array`, `buffer`) are the
/// names that the driver gave out. Sizes and offsets are in bytes.
#[derive(Clone, Debug, PartialEq, Eq)]
pub enum Command {
    /// Sets the viewport to the rectangle of the given size at the origin.
    Viewport { width: u32, height: u32 },
    /// Sets the clear colour; each channel runs from 0 to 255.
    ClearColor { red: u8, green: u8, blue: u8, alpha: u8 },
    /// Clears the colour buffer.
    Clear,
    /// Creates a shader object. Answered by its name.
    CreateShader { kind: ShaderKind },
    /// Replaces the source text of a shader.
    ShaderSource { shader: u32, source: String },
    CompileShader { shader: u32 },
    /// Asks whether the last compilation succeeded. Answered by a value,
    /// zero for failure.
    GetCompileStatus { shader: u32 },
    /// Asks for the length of the shader's information log. Answered by a
    /// value.
    GetShaderLogLength { shader: u32 },
    /// Asks for the shader's information log, into a buffer of `capacity`
    /// bytes. Answered by the buffer as text.
    GetShaderInfoLog { shader: u32, capacity: i32 },
    DeleteShader { shader: u32 },
    /// Creates a program object. Answered by its name.
    CreateProgram,
    AttachShader { program: u32, shader: u32 },
    LinkProgram { program: u32 },
    /// Asks whether the last link succeeded. Answered by a value, zero for
    /// failure.
    GetLinkStatus { program: u32 },
    /// Asks for the length of the program's information log. Answered by a
    /// value.
    GetProgramLogLength { program: u32 },
    /// Asks for the program's information log, into a buffer of `capacity`
    /// bytes. Answered by the buffer as text.
    GetProgramInfoLog { program: u32, capacity: i32 },
    DetachShader { program: u32, shader: u32 },
    UseProgram { program: u32 },
    DeleteProgram { program: u32 },
    /// Asks for the location of a uniform. Answered by a value, `-1` where
    /// the program has no active uniform of that name.
    GetUniformLocation { program: u32, name: String },
    /// Sets an integer uniform of the program in use.
    Uniform1i { location: i32, value: i32 },
    /// Creates a texture object. Answered by its name.
    GenTexture,
    /// Binds a two-dimensional texture to the active unit.
    BindTexture { texture: u32 },
    TexParameter { parameter: TextureParameter, setting: TextureSetting },
    /// Uploads level 0 of the bound texture: `width * height` pixels of four
    /// bytes each (red, green, blue, alpha), the bottom row first.
    TexImage2D { width: u32, height: u32, pixels: Vec<u8> },
    GenerateMipmap,
    /// Makes the texture unit of the given number, counted from zero, the
    /// active one.
    ActiveTexture { unit: u32 },
    DeleteTexture { texture: u32 },
    /// Creates a vertex array object. Answered by its name.
    GenVertexArray,
    /// Binds a vertex array object; zero unbinds.
    BindVertexArray { array: u32 },
    /// Creates a buffer object. Answered by its name.
    GenBuffer,
    BindBuffer { target: BufferTarget, buffer: u32 },
    /// Allocates `size` bytes for the buffer bound to `target` and fills
    /// them.
    BufferData { target: BufferTarget, size: usize, contents: BufferContents, usage: BufferUsage },
    /// Overwrites `size` bytes of the buffer bound to `target`, from
    /// `offset` on, without allocating.
    BufferSubData { target: BufferTarget, offset: usize, size: usize, contents: BufferContents },
    EnableVertexAttribArray { index: u32 },
    /// Declares attribute `index` as `components` 32-bit floats, not
    /// normalized, found every `stride` bytes from `offset` on.
    VertexAttribPointer { index: u32, components: i32, stride: i32, offset: usize },
    /// Draws `count` indices of the bound index buffer, read as 32-bit
    /// unsigned numbers from its start, as triangles.
    DrawElements { count: i32 },
    DeleteBuffer { buffer: u32 },
    DeleteVertexArray { array: u32 },
}

/// What a `Command` says, with its text and data as mathematical sequences.
pub enum Op {
    Viewport { width: u32, height: u32 },
    ClearColor { red: u8, green: u8, blue: u8, alpha: u8 },
    Clear,
    CreateShader { kind: ShaderKind },
    ShaderSource { shader: u32, source: Seq<char> },
    CompileShader { shader: u32 },
    GetCompileStatus { shader: u32 },
    GetShaderLogLength { shader: u32 },
    GetShaderInfoLog { shader: u32, capacity: i32 },
    DeleteShader { shader: u32 },
    CreateProgram,
    AttachShader { program: u32, shader: u32 },
    LinkProgram { program: u32 },
    GetLinkStatus { program: u32 },
    GetProgramLogLength { program: u32 },
    GetProgramInfoLog { program: u32, capacity: i32 },
    DetachShader { program: u32, shader: u32 },
    UseProgram { program: u32 },
    DeleteProgram { program: u32 },
    GetUniformLocation { program: u32, name: Seq<char> },
    Uniform1i { location: i32, value: i32 },
    GenTexture,
    BindTexture { texture: u32 },
    TexParameter { parameter: TextureParameter, setting: TextureSetting },
    TexImage2D { width: u32, height: u32, pixels: Seq<u8> },
    GenerateMipmap,
    ActiveTexture { unit: u32 },
    DeleteTexture { texture: u32 },
    GenVertexArray,
    BindVertexArray { array: u32 },
    GenBuffer,
    BindBuffer { target: BufferTarget, buffer: u32 },
    BufferData { target: BufferTarget, size: usize, contents: BufferData, usage: BufferUsage },
    BufferSubData { target: BufferTarget, offset: usize, size: usize, contents: BufferData },
    EnableVertexAttribArray { index: u32 },
    VertexAttribPointer { index: u32, components: i32, stride: i32, offset: usize },
    DrawElements { count: i32 },
    DeleteBuffer { buffer: u32 },
    DeleteVertexArray { array: u32 },
}

impl View for Command {
    type V = Op;

    open spec fn view(&self) -> Op {
        match self {
            Command::Viewport { width, height } => Op::Viewport { width: *width, height: *height },
            Command::ClearColor { red, green, blue, alpha } => Op::ClearColor {
                red: *red,
                green: *green,
                blue: *blue,
                alpha: *alpha,
            },
            Command::Clear => Op::Clear,
            Command::CreateShader { kind } => Op::CreateShader { kind: *kind },
            Command::ShaderSource { shader, source } => Op::ShaderSource {
                shader: *shader,
                source: source@,
            },
            Command::CompileShader { shader } => Op::CompileShader { shader: *shader },
            Command::GetCompileStatus { shader } => Op::GetCompileStatus { shader: *shader },
            Command::GetShaderLogLength { shader } => Op::GetShaderLogLength { shader: *shader },
            Command::GetShaderInfoLog { shader, capacity } => Op::GetShaderInfoLog {
                shader: *shader,
                capacity: *capacity,
            },
            Command::DeleteShader { shader } => Op::DeleteShader { shader: *shader },
            Command::CreateProgram => Op::CreateProgram,
            Command::AttachShader { program, shader } => Op::AttachShader {
                program: *program,
                shader: *shader,
            },
            Command::LinkProgram { program } => Op::LinkProgram { program: *program },
            Command::GetLinkStatus { program } => Op::GetLinkStatus { program: *program },
            Command::GetProgramLogLength { program } => Op::GetProgramLogLength {
                program: *program,
            },
            Command::GetProgramInfoLog { program, capacity } => Op::GetProgramInfoLog {
                program: *program,
                capacity: *capacity,
            },
            Command::DetachShader { program, shader } => Op::DetachShader {
                program: *program,
                shader: *shader,
            },
            Command::UseProgram { program } => Op::UseProgram { program: *program },
            Command::DeleteProgram { program } => Op::DeleteProgram { program: *program },
            Command::GetUniformLocation { program, name } => Op::GetUniformLocation {
                program: *program,
                name: name@,
            },
            Command::Uniform1i { location, value } => Op::Uniform1i {
                location: *location,
                value: *value,
            },
            Command::GenTexture => Op::GenTexture,
            Command::BindTexture { texture } => Op::BindTexture { texture: *texture },
            Command::TexParameter { parameter, setting } => Op::TexParameter {
                parameter: *parameter,
                setting: *setting,
            },
            Command::TexImage2D { width, height, pixels } => Op::TexImage2D {
                width: *width,
                height: *height,
                pixels: pixels@,
            },
            Command::GenerateMipmap => Op::GenerateMipmap,
            Command::ActiveTexture { unit } => Op::ActiveTexture { unit: *unit },
            Command::DeleteTexture { texture } => Op::DeleteTexture { texture: *texture },
            Command::GenVertexArray => Op::GenVertexArray,
            Command::BindVertexArray { array } => Op::BindVertexArray { array: *array },
            Command::GenBuffer => Op::GenBuffer,
            Command::BindBuffer { target, buffer } => Op::BindBuffer {
                target: *target,
                buffer: *buffer,
            },
            Command::BufferData { target, size, contents, usage } => Op::BufferData {
                target: *target,
                size: *size,
                contents: contents@,
                usage: *usage,
            },
            Command::BufferSubData { target, offset, size, contents } => Op::BufferSubData {
                target: *target,
                offset: *offset,
                size: *size,
                contents: contents@,
            },
            Command::EnableVertexAttribArray { index } => Op::EnableVertexAttribArray {
                index: *index,
            },
            Command::VertexAttribPointer { index, components, stride, offset } => {
                Op::VertexAttribPointer {
                    index: *index,
                    components: *components,
                    stride: *stride,
                    offset: *offset,
                }
            },
            Command::DrawElements { count } => Op::DrawElements { count: *count },
            Command::DeleteBuffer { buffer } => Op::DeleteBuffer { buffer: *buffer },
            Command::DeleteVertexArray { array } => Op::DeleteVertexArray { array: *array },
        }
    }
}

/// What a batch of commands says, command by command.
pub open spec fn ops(commands: Seq<Command>) -> Seq<Op> {
    commands.map_values(|c: Command| c@)
}

/// Appends one command to a batch.
pub fn issue(run: &mut Vec<Command>, command: Command)
    ensures
        final(run)@ == old(run)@.push(command),
        ops(final(run)@) == ops(old(run)@).push(command@),
{
    run.push(command);
    assert(ops(run@) =~= ops(old(run)@).push(command@));
}

/// Appends a batch of commands to a batch.
pub fn issue_all(run: &mut Vec<Command>, more: Vec<Command>)
    ensures
        final(run)@ == old(run)@ + more@,
        ops(final(run)@) == ops(old(run)@) + ops(more@),
{
    let mut rest = more;
    run.append(&mut rest);
    assert(ops(run@) =~= ops(old(run)@) + ops(more@));
}

/// What the driver answered to a command.
#[derive(Clone, Debug, PartialEq, Eq)]
pub enum Reply {
    /// The name of a new object.
    Name(u32),
    /// A status, a length or a location.
    Value(i32),
    /// An information log.
    Text(String),
}

/// The kinds of answer.
#[derive(Clone, Copy, Debug, PartialEq, Eq)]
pub enum ReplyKind {
    Name,
    Value,
    Text,
}

impl Reply {
    pub open spec fn spec_kind(&self) -> ReplyKind {
        match self {
            Reply::Name(_) => ReplyKind::Name,
            Reply::Value(_) => ReplyKind::Value,
            Reply::Text(_) => ReplyKind::Text,
        }
    }

    /// The kind of this answer.
    #[verifier::when_used_as_spec(spec_kind)]
    pub fn kind(&self) -> (kind: ReplyKind)
        ensures
            kind == self.spec_kind(),
    {
        match self {
            Reply::Name(_) => ReplyKind::Name,
            Reply::Value(_) => ReplyKind::Value,
            Reply::Text(_) => ReplyKind::Text,
        }
    }
}

/// Where an operation stands after a batch of commands.
#[derive(Debug)]
pub enum Next<M, T> {
    /// It waits for the answer to the last command of the batch.
    Await(M),
    /// It is over.
    Done(T),
}

/// One step of an operation: the commands to run now, in order, and what
/// comes after them.
#[derive(Debug)]
pub struct Step<M, T> {
    pub run: Vec<Command>,
    pub next: Next<M, T>,
}

} // verus!
