//! The renderer: the program, the texture and the quad, from start-up to
//! tear-down.

use vstd::prelude::*;
use vstd::string::StringExecFns;
use crate::bitmap::{Bitmap, Raster};
use crate::command::{
    issue_all, ops, BufferData, BufferTarget, Command, Next, Op, Reply, ReplyKind, ShaderKind, Step,
};
use crate::error::{Error, Failure};
use crate::geometry::{corners, fit, fitted, indices, quad, winding, Size};
use crate::mesh::{
    build_ops, build_turn, built, draw_ops, sampler, Build, BuildStage, BuildState, Mesh, MeshState,
    QUAD_VERTICES, VERTEX_BYTES,
};
use crate::shader::{
    link_awaits, link_ops, link_turn, CompileStage, Link, LinkStage, LinkState, LinkTurn, Lookup,
    LookupState, Program, ProgramState,
};
use crate::texture::{upload_ops, Texture, TextureState, Upload};

verus! {

/// The source of the vertex stage: it passes the position and the texture
/// coordinate on.
pub const VERTEX_SOURCE: &'static str =
    "#version 330 core\nlayout (location = 0) in vec2 position;\nlayout (location = 1) in vec2 tex_coords;\nout vec2 v_tex_coords;\nvoid main() {\n    gl_Position = vec4(position, 0, 1);\n    v_tex_coords = tex_coords;\n}\n";

/// The source of the fragment stage: it samples the texture.
pub const FRAGMENT_SOURCE: &'static str =
    "#version 330 core\nin vec2 v_tex_coords;\nout vec4 color;\nuniform sampler2D texture0;\nvoid main() {\n    color = texture(texture0, v_tex_coords);\n}\n";

/// The title of the window once the image at `path` is shown.
pub fn title(path: &str) -> (title: String)
    ensures
        title@ == path@ + " - imgview"@,
{
    path.to_owned().concat(" - imgview")
}

/// The renderer. It owns the program, the texture and the quad's mesh.
pub struct State {
    program: Program,
    texture: Texture,
    mesh: Mesh,
}

/// What a `State` holds.
pub struct Scene {
    pub program: ProgramState,
    pub texture: TextureState,
    pub mesh: MeshState,
}

impl Scene {
    /// Whether the mesh is one quad.
    pub open spec fn well_formed(self) -> bool {
        self.mesh.vertices.len() == QUAD_VERTICES
    }

    /// The renderer after the window took the size `size`: the quad is
    /// fitted anew to the window; the texture, the program and the names of
    /// the buffers stay.
    pub open spec fn resized(self, size: Size) -> Scene {
        Scene { mesh: self.mesh.updated(corners(fitted(size, self.texture.size()))), ..self }
    }

    /// The commands that follow a change of the window's size to `size`:
    /// the viewport takes the new size, and the vertex buffer is rewritten
    /// in place with the quad fitted anew.
    pub open spec fn resize_ops(self, size: Size) -> Seq<Op> {
        seq![
            Op::Viewport { width: size.width, height: size.height },
            Op::BufferSubData {
                target: BufferTarget::Array,
                offset: 0,
                size: (QUAD_VERTICES * VERTEX_BYTES) as usize,
                contents: BufferData::Vertices(corners(fitted(size, self.texture.size()))),
            },
        ]
    }

    /// The commands that open a frame: the colour buffer is cleared to
    /// opaque black and the program is put to use.
    pub open spec fn frame_ops(self) -> Seq<Op> {
        seq![
            Op::ClearColor { red: 0, green: 0, blue: 0, alpha: 255 },
            Op::Clear,
            Op::UseProgram { program: self.program.id },
        ]
    }

    /// The commands that give every object back to the driver, the last
    /// one made first: the mesh, the texture, the program.
    pub open spec fn release_ops(self) -> Seq<Op> {
        seq![
            Op::DeleteBuffer { buffer: self.mesh.ebo },
            Op::DeleteBuffer { buffer: self.mesh.vbo },
            Op::DeleteVertexArray { array: self.mesh.vao },
            Op::DeleteTexture { texture: self.texture.id },
            Op::DeleteProgram { program: self.program.id },
        ]
    }
}

impl View for State {
    type V = Scene;

    closed spec fn view(&self) -> Scene {
        Scene { program: self.program@, texture: self.texture@, mesh: self.mesh@ }
    }
}

/// Resizing twice to the same size is resizing once: the second time
/// leaves the renderer as it is and issues the commands of the first.
pub proof fn resize_is_idempotent(scene: Scene, size: Size)
    ensures
        scene.resized(size).resized(size) == scene.resized(size),
        scene.resized(size).resize_ops(size) == scene.resize_ops(size),
{
}

/// Resizing keeps every object: the program, the texture with its
/// dimensions, the names of the vertex array object and of both buffers,
/// and the number of indices. Each of its commands either sets the
/// viewport or overwrites the whole vertex buffer, which has room for four
/// vertices; none allocates a buffer, binds one or writes indices.
pub proof fn resize_keeps_objects(scene: Scene, size: Size)
    ensures
        scene.resized(size).program == scene.program,
        scene.resized(size).texture == scene.texture,
        scene.resized(size).mesh.vao == scene.mesh.vao,
        scene.resized(size).mesh.vbo == scene.mesh.vbo,
        scene.resized(size).mesh.ebo == scene.mesh.ebo,
        scene.resized(size).mesh.num_indices == scene.mesh.num_indices,
        scene.resized(size).well_formed(),
        forall|i: int|
            0 <= i < scene.resize_ops(size).len() ==> (#[trigger] scene.resize_ops(size)[i]
                is Viewport) || (scene.resize_ops(size)[i] matches Op::BufferSubData {
                target,
                offset,
                size,
                contents,
            } && target == BufferTarget::Array && offset == 0 && size == QUAD_VERTICES
                * VERTEX_BYTES && contents is Vertices),
{
}

/// What start-up is busy with.
enum Phase {
    Linking { link: Link, image: Result<Bitmap, Error> },
    Uploading { program: Program, upload: Upload },
    Building { program: Program, texture: Texture, build: Build },
}

/// What start-up is busy with.
pub enum PhaseState {
    /// The program is being linked. The image waits, its first row the top
    /// one, or the failure to load it does.
    Linking { link: LinkState, image: Result<Raster, Failure> },
    /// The program is linked and the texture is being made of `upload`.
    Uploading { program: ProgramState, upload: Raster },
    /// The texture is made and the mesh is being made.
    Building { program: ProgramState, texture: TextureState, build: BuildState },
}

/// The start-up of the renderer, waiting for an answer of the driver.
pub struct Startup {
    size: Size,
    phase: Phase,
}

/// What a `Startup` holds: the size of the window and what it is busy
/// with.
pub struct StartupState {
    pub size: Size,
    pub phase: PhaseState,
}

/// The text of a string that may be missing.
pub open spec fn text(s: Option<String>) -> Option<Seq<char>> {
    match s {
        Some(s) => Some(s@),
        None => None,
    }
}

/// What an image that may be missing holds.
pub open spec fn picture(image: Option<Bitmap>) -> Option<Raster> {
    match image {
        Some(image) => Some(image@),
        None => None,
    }
}

/// What loading an image gave.
pub open spec fn pictured(image: Result<Bitmap, Error>) -> Result<Raster, Failure> {
    match image {
        Ok(bitmap) => Ok(bitmap@),
        Err(e) => Err(e@),
    }
}

/// What loading the image file gives, where `path` is its name, if one was
/// given, and `image` what opening and decoding that file gave, if
/// anything.
///
/// It fails where no file was named; and where the file that was named
/// could not be read or could not be decoded, with the name of the file.
pub open spec fn loaded(path: Option<Seq<char>>, image: Option<Raster>) -> Result<Raster, Failure> {
    match path {
        None => Err(Failure::MissingArgument),
        Some(path) => match image {
            None => Err(Failure::ImageLoad { path }),
            Some(image) => Ok(image),
        },
    }
}

/// Decides what loading the image file gave, where `path` is its name, if
/// one was given, and `image` what opening and decoding that file gave, if
/// anything.
pub fn load(path: Option<String>, image: Option<Bitmap>) -> (out: Result<Bitmap, Error>)
    ensures
        pictured(out) == loaded(text(path), picture(image)),
{
    match path {
        None => Err(Error::MissingArgument),
        Some(path) => match image {
            None => Err(Error::ImageLoad { path }),
            Some(image) => Ok(image),
        },
    }
}

impl View for Phase {
    type V = PhaseState;

    closed spec fn view(&self) -> PhaseState {
        match self {
            Phase::Linking { link, image } => PhaseState::Linking {
                link: link@,
                image: pictured(*image),
            },
            Phase::Uploading { program, upload } => PhaseState::Uploading {
                program: program@,
                upload: upload@,
            },
            Phase::Building { program, texture, build } => PhaseState::Building {
                program: program@,
                texture: texture@,
                build: build@,
            },
        }
    }
}

impl View for Startup {
    type V = StartupState;

    closed spec fn view(&self) -> StartupState {
        StartupState { size: self.size, phase: self.phase@ }
    }
}

/// Where start-up begins: the fixed pair of shaders is about to be
/// linked, and the image waits.
pub open spec fn first_phase(size: Size, image: Result<Raster, Failure>) -> StartupState {
    StartupState {
        size,
        phase: PhaseState::Linking {
            link: LinkState {
                vertex_source: VERTEX_SOURCE@,
                fragment_source: FRAGMENT_SOURCE@,
                stage: LinkStage::Vertex(CompileStage::Name),
            },
            image,
        },
    }
}

/// The commands that start-up begins with: the viewport takes the size of
/// the window, and the vertex shader is asked for.
pub open spec fn first_ops(size: Size) -> Seq<Op> {
    seq![
        Op::Viewport { width: size.width, height: size.height },
        Op::CreateShader { kind: ShaderKind::Vertex },
    ]
}

/// How start-up goes on after an answer.
pub enum StartupTurn {
    /// It waits for another answer.
    Await(PhaseState),
    /// The renderer is ready.
    Started(Scene),
    /// It failed.
    Failed(Failure),
}

/// How start-up goes on once the program `program` is linked: the texture
/// of the image is begun, or start-up ends with the failure to load the
/// image.
pub open spec fn image_turn(program: u32, image: Result<Raster, Failure>) -> StartupTurn {
    match image {
        Ok(image) => StartupTurn::Await(
            PhaseState::Uploading {
                program: ProgramState { id: program, locations: Map::empty() },
                upload: image.flipped(),
            },
        ),
        Err(failure) => StartupTurn::Failed(failure),
    }
}

/// The mesh that start-up begins once the texture is made: the quad that
/// shows an image of the texture's dimensions in a window of size `size`.
pub open spec fn first_build(size: Size, texture: TextureState) -> BuildState {
    BuildState {
        vertices: corners(fitted(size, texture.size())),
        indices: winding(),
        stage: BuildStage::VertexArray,
    }
}

/// How start-up goes on after `reply`.
///
/// The program is linked first, and a failure of that comes before any
/// failure to do with the image. Then the texture is made of the image,
/// then the mesh of the quad fitted to the window. An answer of a kind that
/// start-up does not wait for is passed over.
pub open spec fn startup_turn(startup: StartupState, reply: Reply) -> StartupTurn {
    match startup.phase {
        PhaseState::Linking { link, image } => match link_turn(link.stage, reply) {
            LinkTurn::Await(stage) => StartupTurn::Await(
                PhaseState::Linking { link: LinkState { stage, ..link }, image },
            ),
            LinkTurn::Linked(program) => image_turn(program, image),
            LinkTurn::Failed(failure) => StartupTurn::Failed(failure),
        },
        PhaseState::Uploading { program, upload } => match reply {
            Reply::Name(id) => {
                let texture = TextureState { id, width: upload.width, height: upload.height };
                StartupTurn::Await(
                    PhaseState::Building {
                        program,
                        texture,
                        build: first_build(startup.size, texture),
                    },
                )
            },
            _ => StartupTurn::Await(startup.phase),
        },
        PhaseState::Building { program, texture, build } => match build_turn(build.stage, reply) {
            Some(stage) => StartupTurn::Await(
                PhaseState::Building { program, texture, build: BuildState { stage, ..build } },
            ),
            None => match reply {
                Reply::Name(ebo) => StartupTurn::Started(
                    Scene { program, texture, mesh: built(build, ebo) },
                ),
                _ => StartupTurn::Await(startup.phase),
            },
        },
    }
}

/// The commands that start-up issues after `reply`: those of the operation
/// that it is busy with and, where that ends well, the command that begins
/// the next one.
pub open spec fn startup_ops(startup: StartupState, reply: Reply) -> Seq<Op> {
    match startup.phase {
        PhaseState::Linking { link, .. } => link_ops(
            link.stage,
            link.vertex_source,
            link.fragment_source,
            reply,
        ) + (match startup_turn(startup, reply) {
            StartupTurn::Await(PhaseState::Uploading { .. }) => seq![Op::GenTexture],
            _ => seq![],
        }),
        PhaseState::Uploading { upload, .. } => match reply {
            Reply::Name(id) => upload_ops(id, upload) + seq![Op::GenVertexArray],
            _ => seq![],
        },
        PhaseState::Building { build, .. } => build_ops(build, reply),
    }
}

/// The kind of answer that start-up waits for.
pub open spec fn startup_awaits(phase: PhaseState) -> ReplyKind {
    match phase {
        PhaseState::Linking { link, .. } => link_awaits(link.stage),
        PhaseState::Uploading { .. } => ReplyKind::Name,
        PhaseState::Building { .. } => ReplyKind::Name,
    }
}

impl Startup {
    /// The kind of answer that start-up waits for.
    pub fn awaits(&self) -> (kind: ReplyKind)
        ensures
            kind == startup_awaits(self@.phase),
    {
        match &self.phase {
            Phase::Linking { link, .. } => link.awaits(),
            Phase::Uploading { .. } => ReplyKind::Name,
            Phase::Building { .. } => ReplyKind::Name,
        }
    }

    /// Goes on with start-up after the driver's answer.
    ///
    /// Start-up ends with the renderer, its mesh one quad, or with the
    /// first failure. An answer of another kind than `awaits` gives is
    /// passed over.
    pub fn advance(self, reply: Reply) -> (step: Step<Startup, Result<State, Error>>)
        ensures
            ops(step.run@) == startup_ops(self@, reply),
            match startup_turn(self@, reply) {
                StartupTurn::Await(phase) => step.next matches Next::Await(startup) && startup@ == (
                StartupState { size: self@.size, phase }),
                StartupTurn::Started(scene) => step.next matches Next::Done(Ok(state)) && state@
                    == scene && scene.well_formed(),
                StartupTurn::Failed(failure) => step.next matches Next::Done(Err(e)) && e@
                    == failure,
            },
    {
        let Startup { size, phase } = self;
        match phase {
            Phase::Linking { link, image } => {
                let Step { run, next } = link.advance(reply);
                let mut run = run;
                let next = match next {
                    Next::Await(link) => Next::Await(
                        Startup { size, phase: Phase::Linking { link, image } },
                    ),
                    Next::Done(Err(e)) => Next::Done(Err(e)),
                    Next::Done(Ok(program)) => match image {
                        Err(e) => Next::Done(Err(e)),
                        Ok(image) => {
                            let (upload, first) = Texture::from_img(image);
                            issue_all(&mut run, first);
                            Next::Await(
                                Startup { size, phase: Phase::Uploading { program, upload } },
                            )
                        },
                    },
                };
                assert(ops(run@) =~= startup_ops(self@, reply));
                Step { run, next }
            },
            Phase::Uploading { program, upload } => {
                let Step { run, next } = upload.advance(reply);
                let mut run = run;
                let next = match next {
                    Next::Await(upload) => Next::Await(
                        Startup { size, phase: Phase::Uploading { program, upload } },
                    ),
                    Next::Done(texture) => {
                        let image = Size { width: texture.width(), height: texture.height() };
                        let list = indices();
                        let (build, first) = Mesh::new(quad(fit(size, image)), list.as_slice());
                        issue_all(&mut run, first);
                        Next::Await(
                            Startup { size, phase: Phase::Building { program, texture, build } },
                        )
                    },
                };
                assert(ops(run@) =~= startup_ops(self@, reply));
                Step { run, next }
            },
            Phase::Building { program, texture, build } => {
                let Step { run, next } = build.advance(reply);
                let next = match next {
                    Next::Await(build) => Next::Await(
                        Startup { size, phase: Phase::Building { program, texture, build } },
                    ),
                    Next::Done(mesh) => Next::Done(Ok(State { program, texture, mesh })),
                };
                Step { run, next }
            },
        }
    }
}

impl State {
    /// Starts the renderer for a window of size `size`, as `with_image`
    /// does with what `load` decides.
    ///
    /// `path` is the name of the image file, if one was given, and `image`
    /// what opening and decoding that file gave, if anything, its first row
    /// the top one.
    pub fn new(size: Size, path: Option<String>, image: Option<Bitmap>) -> (start: (
        Startup,
        Vec<Command>,
    ))
        ensures
            start.0@ == first_phase(size, loaded(text(path), picture(image))),
            ops(start.1@) == first_ops(size),
    {
        State::with_image(size, load(path, image))
    }

    /// Starts the renderer for a window of size `size` and an image, its
    /// first row the top one, or the failure to load one.
    ///
    /// Hands back the start-up, which waits for the name of the vertex
    /// shader, and the first commands: the viewport takes the size of the
    /// window, and the vertex shader is asked for. A failure to load the
    /// image ends start-up once the program is linked, not before.
    pub fn with_image(size: Size, image: Result<Bitmap, Error>) -> (start: (Startup, Vec<Command>))
        ensures
            start.0@ == first_phase(size, pictured(image)),
            ops(start.1@) == first_ops(size),
    {
        let mut run = vec![Command::Viewport { width: size.width, height: size.height }];
        assert(ops(run@) =~= seq![Op::Viewport { width: size.width, height: size.height }]);
        let (link, first) = Program::from_sources(VERTEX_SOURCE, FRAGMENT_SOURCE);
        issue_all(&mut run, first);
        assert(ops(run@) =~= first_ops(size));
        (Startup { size, phase: Phase::Linking { link, image } }, run)
    }

    /// Follows a change of the window's size to `size`.
    pub fn resize(&mut self, size: Size) -> (run: Vec<Command>)
        ensures
            old(self)@.well_formed(),
            final(self)@ == old(self)@.resized(size),
            ops(run@) == old(self)@.resize_ops(size),
    {
        let mut run = vec![Command::Viewport { width: size.width, height: size.height }];
        assert(ops(run@) =~= seq![Op::Viewport { width: size.width, height: size.height }]);
        let image = Size { width: self.texture.width(), height: self.texture.height() };
        let update = self.mesh.update_data(quad(fit(size, image)));
        issue_all(&mut run, update);
        assert(ops(run@) =~= old(self)@.resize_ops(size));
        run
    }

    /// Draws one frame. The frame is not shown by this: that is for the
    /// owner of the window, once the commands have run.
    ///
    /// Where the location of the sampler uniform is not cached yet, which
    /// is so in the first frame, the driver is asked for it after the frame
    /// was opened, and `resume` draws once the answer is there.
    pub fn render(&mut self) -> (step: Step<Lookup, ()>)
        ensures
            final(self)@ == old(self)@,
            old(self)@.program.locations.contains_key(sampler()) ==> step.next is Done && ops(
                step.run@,
            ) == old(self)@.frame_ops() + seq![
                Op::Uniform1i { location: old(self)@.program.locations[sampler()], value: 0 },
            ] + draw_ops(old(self)@.mesh, old(self)@.texture.id),
            !old(self)@.program.locations.contains_key(sampler()) ==> ops(step.run@) == old(
                self,
            )@.frame_ops() + seq![
                Op::GetUniformLocation { program: old(self)@.program.id, name: sampler() },
            ] && (step.next matches Next::Await(lookup) && lookup@ == (LookupState {
                name: sampler(),
                value: 0,
            })),
    {
        let mut run = vec![
            Command::ClearColor { red: 0, green: 0, blue: 0, alpha: 255 },
            Command::Clear,
        ];
        assert(ops(run@) =~= seq![
            Op::ClearColor { red: 0, green: 0, blue: 0, alpha: 255 },
            Op::Clear,
        ]);
        issue_all(&mut run, self.program.set_used());
        assert(ops(run@) =~= old(self)@.frame_ops());
        let Step { run: rest, next } = self.mesh.render(&mut self.program, &self.texture);
        issue_all(&mut run, rest);
        Step { run, next }
    }

    /// Goes on with `render` after the driver's answer: caches the location
    /// of the sampler uniform, sets it, and draws. An answer that is not a
    /// value is passed over.
    pub fn resume(&mut self, lookup: Lookup, reply: Reply) -> (step: Step<Lookup, ()>)
        ensures
            match reply {
                Reply::Value(location) => {
                    &&& final(self)@ == (Scene {
                        program: ProgramState {
                            id: old(self)@.program.id,
                            locations: old(self)@.program.locations.insert(lookup@.name, location),
                        },
                        ..old(self)@
                    })
                    &&& ops(step.run@) == seq![Op::Uniform1i { location, value: lookup@.value }]
                        + draw_ops(old(self)@.mesh, old(self)@.texture.id)
                    &&& step.next is Done
                },
                _ => {
                    &&& final(self)@ == old(self)@
                    &&& ops(step.run@) == Seq::<Op>::empty()
                    &&& step.next matches Next::Await(pending) && pending@ == lookup@
                },
            },
    {
        self.mesh.resume(lookup, &mut self.program, &self.texture, reply)
    }

    /// Tears the renderer down: every object is given back to the driver,
    /// the last one made first.
    pub fn release(self) -> (run: Vec<Command>)
        ensures
            ops(run@) == self@.release_ops(),
    {
        let State { program, texture, mesh } = self;
        let mut run = mesh.release();
        issue_all(&mut run, texture.release());
        issue_all(&mut run, program.release());
        assert(ops(run@) =~= self@.release_ops());
        run
    }

    /// The program.
    pub fn program(&self) -> (program: &Program)
        ensures
            program@ == self@.program,
    {
        &self.program
    }

    /// The texture.
    pub fn texture(&self) -> (texture: &Texture)
        ensures
            texture@ == self@.texture,
    {
        &self.texture
    }

    /// The mesh of the quad.
    pub fn mesh(&self) -> (mesh: &Mesh)
        ensures
            mesh@ == self@.mesh,
            self@.well_formed(),
    {
        let list = self.mesh.vertices();
        &self.mesh
    }
}

} // verus!
