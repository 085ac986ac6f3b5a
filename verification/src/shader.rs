//! Shader stages, the linked program, and the program's cache of uniform
//! locations.

use vstd::prelude::*;
use vstd::hash_map::StringHashMap;
use crate::command::{issue, ops, Command, Next, Op, Reply, ReplyKind, ShaderKind, Step};
use crate::error::{Error, Failure};

verus! {

/// A compiled shader stage. It owns the driver's shader object.
#[derive(Debug, PartialEq, Eq)]
pub struct Shader {
    id: u32,
}

impl View for Shader {
    type V = u32;

    /// The name of the shader object.
    closed spec fn view(&self) -> u32 {
        self.id
    }
}

impl Shader {
    /// Starts the compilation of one stage from its source text: hands
    /// back the compilation, which waits for the name of the shader
    /// object, and the command that asks for it.
    pub fn from_source(source: &str, kind: ShaderKind) -> (start: (Compile, Vec<Command>))
        ensures
            start.0@ == (CompileState { kind, source: source@, stage: CompileStage::Name }),
            ops(start.1@) == seq![Op::CreateShader { kind }],
    {
        let run = vec![Command::CreateShader { kind }];
        assert(ops(run@) =~= seq![Op::CreateShader { kind }]);
        (Compile { kind, source: source.to_owned(), stage: CompileStage::Name }, run)
    }

    /// The name of the shader object.
    pub fn id(&self) -> (id: u32)
        ensures
            id == self@,
    {
        self.id
    }

    /// Gives the shader object back to the driver.
    pub fn release(self) -> (run: Vec<Command>)
        ensures
            ops(run@) == seq![Op::DeleteShader { shader: self@ }],
    {
        let run = vec![Command::DeleteShader { shader: self.id }];
        assert(ops(run@) =~= seq![Op::DeleteShader { shader: self@ }]);
        run
    }
}

/// How far a compilation has come.
#[derive(Clone, Copy, Debug, PartialEq, Eq)]
pub enum CompileStage {
    /// The shader object was asked for.
    Name,
    /// The source was compiled and the status asked for.
    Status { shader: u32 },
    /// Compilation failed and the length of the log was asked for.
    LogLength { shader: u32 },
    /// The log was asked for.
    Log { shader: u32 },
}

/// How a compilation goes on after an answer.
pub enum CompileTurn {
    /// It waits for another answer.
    Await(CompileStage),
    /// The shader of this name is compiled.
    Compiled(u32),
    /// The compiler rejected the source and wrote this log.
    Failed(Seq<char>),
}

/// The kind of answer that a compilation waits for.
pub open spec fn compile_awaits(stage: CompileStage) -> ReplyKind {
    match stage {
        CompileStage::Name => ReplyKind::Name,
        CompileStage::Status { .. } => ReplyKind::Value,
        CompileStage::LogLength { .. } => ReplyKind::Value,
        CompileStage::Log { .. } => ReplyKind::Text,
    }
}

/// How a compilation at `stage` goes on after `reply`.
///
/// A status of zero means that the compiler rejected the source; the log is
/// then fetched, in the length that the driver gives for it, and becomes
/// the error as it is. An answer of a kind that the compilation does not
/// wait for is passed over: the compilation stays where it is.
pub open spec fn compile_turn(stage: CompileStage, reply: Reply) -> CompileTurn {
    match (stage, reply) {
        (CompileStage::Name, Reply::Name(shader)) => CompileTurn::Await(
            CompileStage::Status { shader },
        ),
        (CompileStage::Status { shader }, Reply::Value(status)) => if status == 0 {
            CompileTurn::Await(CompileStage::LogLength { shader })
        } else {
            CompileTurn::Compiled(shader)
        },
        (CompileStage::LogLength { shader }, Reply::Value(_)) => CompileTurn::Await(
            CompileStage::Log { shader },
        ),
        (CompileStage::Log { .. }, Reply::Text(log)) => CompileTurn::Failed(log@),
        _ => CompileTurn::Await(stage),
    }
}

/// The commands that a compilation at `stage` issues after `reply`.
pub open spec fn compile_ops(stage: CompileStage, source: Seq<char>, reply: Reply) -> Seq<Op> {
    match (stage, reply) {
        (CompileStage::Name, Reply::Name(shader)) => seq![
            Op::ShaderSource { shader, source },
            Op::CompileShader { shader },
            Op::GetCompileStatus { shader },
        ],
        (CompileStage::Status { shader }, Reply::Value(status)) => if status == 0 {
            seq![Op::GetShaderLogLength { shader }]
        } else {
            seq![]
        },
        (CompileStage::LogLength { shader }, Reply::Value(capacity)) => seq![
            Op::GetShaderInfoLog { shader, capacity },
        ],
        _ => seq![],
    }
}

/// What a compilation hands back to the operation that runs it.
enum Compiled {
    Await(CompileStage),
    Shader(Shader),
    Failed(String),
}

/// One turn of a compilation.
fn compile(stage: CompileStage, source: &str, reply: Reply) -> (out: (Compiled, Vec<Command>))
    ensures
        ops(out.1@) == compile_ops(stage, source@, reply),
        match compile_turn(stage, reply) {
            CompileTurn::Await(next) => out.0 matches Compiled::Await(s) && s == next,
            CompileTurn::Compiled(shader) => out.0 matches Compiled::Shader(s) && s@ == shader,
            CompileTurn::Failed(log) => out.0 matches Compiled::Failed(l) && l@ == log,
        },
{
    match (stage, reply) {
        (CompileStage::Name, Reply::Name(shader)) => {
            let run = vec![
                Command::ShaderSource { shader, source: source.to_owned() },
                Command::CompileShader { shader },
                Command::GetCompileStatus { shader },
            ];
            assert(ops(run@) =~= compile_ops(stage, source@, reply));
            (Compiled::Await(CompileStage::Status { shader }), run)
        },
        (CompileStage::Status { shader }, Reply::Value(status)) => {
            if status == 0 {
                let run = vec![Command::GetShaderLogLength { shader }];
                assert(ops(run@) =~= compile_ops(stage, source@, reply));
                (Compiled::Await(CompileStage::LogLength { shader }), run)
            } else {
                let run = Vec::new();
                assert(ops(run@) =~= compile_ops(stage, source@, reply));
                (Compiled::Shader(Shader { id: shader }), run)
            }
        },
        (CompileStage::LogLength { shader }, Reply::Value(capacity)) => {
            let run = vec![Command::GetShaderInfoLog { shader, capacity }];
            assert(ops(run@) =~= compile_ops(stage, source@, reply));
            (Compiled::Await(CompileStage::Log { shader }), run)
        },
        (CompileStage::Log { .. }, Reply::Text(log)) => {
            let run = Vec::new();
            assert(ops(run@) =~= compile_ops(stage, source@, reply));
            (Compiled::Failed(log), run)
        },
        _ => {
            let run = Vec::new();
            assert(ops(run@) =~= compile_ops(stage, source@, reply));
            (Compiled::Await(stage), run)
        },
    }
}

/// The compilation of one shader stage, waiting for an answer of the
/// driver.
#[derive(Debug)]
pub struct Compile {
    kind: ShaderKind,
    source: String,
    stage: CompileStage,
}

/// What a `Compile` holds.
pub struct CompileState {
    pub kind: ShaderKind,
    pub source: Seq<char>,
    pub stage: CompileStage,
}

impl View for Compile {
    type V = CompileState;

    closed spec fn view(&self) -> CompileState {
        CompileState { kind: self.kind, source: self.source@, stage: self.stage }
    }
}

impl Compile {
    /// The kind of answer that the compilation waits for.
    pub fn awaits(&self) -> (kind: ReplyKind)
        ensures
            kind == compile_awaits(self@.stage),
    {
        awaited(self.stage)
    }

    /// Goes on with the compilation after the driver's answer.
    ///
    /// The compilation ends with the shader where the driver reports
    /// success, and with the driver's log, as it is, where it reports
    /// failure. An answer of another kind than `awaits` gives is passed
    /// over.
    pub fn advance(self, reply: Reply) -> (step: Step<Compile, Result<Shader, Error>>)
        ensures
            ops(step.run@) == compile_ops(self@.stage, self@.source, reply),
            match compile_turn(self@.stage, reply) {
                CompileTurn::Await(stage) => step.next matches Next::Await(compile) && compile@ == (
                CompileState { kind: self@.kind, source: self@.source, stage }),
                CompileTurn::Compiled(shader) => step.next matches Next::Done(Ok(s)) && s@ == shader,
                CompileTurn::Failed(log) => step.next matches Next::Done(Err(e)) && e@ == (
                Failure::ShaderCompile { stage: self@.kind, log }),
            },
    {
        let (compiled, run) = compile(self.stage, self.source.as_str(), reply);
        let next = match compiled {
            Compiled::Await(stage) => Next::Await(
                Compile { kind: self.kind, source: self.source, stage },
            ),
            Compiled::Shader(shader) => Next::Done(Ok(shader)),
            Compiled::Failed(log) => Next::Done(Err(Error::ShaderCompile { stage: self.kind, log })),
        };
        Step { run, next }
    }
}

/// How far the linking of a program has come.
#[derive(Clone, Copy, Debug, PartialEq, Eq)]
pub enum LinkStage {
    /// The vertex shader is being compiled.
    Vertex(CompileStage),
    /// The vertex shader is compiled and the fragment shader is being
    /// compiled.
    Fragment { vertex: u32, stage: CompileStage },
    /// Both shaders are compiled and the program object was asked for.
    Name { vertex: u32, fragment: u32 },
    /// The program was linked and the status asked for.
    Status { program: u32, vertex: u32, fragment: u32 },
    /// Linking failed and the length of the log was asked for.
    LogLength { program: u32, vertex: u32, fragment: u32 },
    /// The log was asked for.
    Log { program: u32, vertex: u32, fragment: u32 },
}

/// How the linking of a program goes on after an answer.
pub enum LinkTurn {
    /// It waits for another answer.
    Await(LinkStage),
    /// The program of this name is linked.
    Linked(u32),
    /// It failed.
    Failed(Failure),
}

/// The kind of answer that the linking of a program waits for.
pub open spec fn link_awaits(stage: LinkStage) -> ReplyKind {
    match stage {
        LinkStage::Vertex(stage) => compile_awaits(stage),
        LinkStage::Fragment { stage, .. } => compile_awaits(stage),
        LinkStage::Name { .. } => ReplyKind::Name,
        LinkStage::Status { .. } => ReplyKind::Value,
        LinkStage::LogLength { .. } => ReplyKind::Value,
        LinkStage::Log { .. } => ReplyKind::Text,
    }
}

/// How the linking of a program at `stage` goes on after `reply`.
///
/// The vertex shader is compiled first, then the fragment shader; a failure
/// of either ends the linking with that failure. A link status of zero
/// means that the linker rejected the program; its log is then fetched and
/// becomes the error as it is. An answer of a kind that the linking does
/// not wait for is passed over.
pub open spec fn link_turn(stage: LinkStage, reply: Reply) -> LinkTurn {
    match stage {
        LinkStage::Vertex(stage) => match compile_turn(stage, reply) {
            CompileTurn::Await(stage) => LinkTurn::Await(LinkStage::Vertex(stage)),
            CompileTurn::Compiled(vertex) => LinkTurn::Await(
                LinkStage::Fragment { vertex, stage: CompileStage::Name },
            ),
            CompileTurn::Failed(log) => LinkTurn::Failed(
                Failure::ShaderCompile { stage: ShaderKind::Vertex, log },
            ),
        },
        LinkStage::Fragment { vertex, stage } => match compile_turn(stage, reply) {
            CompileTurn::Await(stage) => LinkTurn::Await(LinkStage::Fragment { vertex, stage }),
            CompileTurn::Compiled(fragment) => LinkTurn::Await(
                LinkStage::Name { vertex, fragment },
            ),
            CompileTurn::Failed(log) => LinkTurn::Failed(
                Failure::ShaderCompile { stage: ShaderKind::Fragment, log },
            ),
        },
        LinkStage::Name { vertex, fragment } => match reply {
            Reply::Name(program) => LinkTurn::Await(LinkStage::Status { program, vertex, fragment }),
            _ => LinkTurn::Await(stage),
        },
        LinkStage::Status { program, vertex, fragment } => match reply {
            Reply::Value(status) => if status == 0 {
                LinkTurn::Await(LinkStage::LogLength { program, vertex, fragment })
            } else {
                LinkTurn::Linked(program)
            },
            _ => LinkTurn::Await(stage),
        },
        LinkStage::LogLength { program, vertex, fragment } => match reply {
            Reply::Value(_) => LinkTurn::Await(LinkStage::Log { program, vertex, fragment }),
            _ => LinkTurn::Await(stage),
        },
        LinkStage::Log { .. } => match reply {
            Reply::Text(log) => LinkTurn::Failed(Failure::ShaderLink { log: log@ }),
            _ => LinkTurn::Await(stage),
        },
    }
}

/// The commands that the linking of a program at `stage` issues after
/// `reply`.
///
/// A shader that was compiled is deleted when the linking ends, whether the
/// program was linked or not, the fragment shader before the vertex shader;
/// before that, where the program was linked, both are detached from it. A
/// shader that the compiler rejected is not deleted, nor is a program that
/// the linker rejected.
pub open spec fn link_ops(
    stage: LinkStage,
    vertex_source: Seq<char>,
    fragment_source: Seq<char>,
    reply: Reply,
) -> Seq<Op> {
    match stage {
        LinkStage::Vertex(stage) => compile_ops(stage, vertex_source, reply) + (match compile_turn(
            stage,
            reply,
        ) {
            CompileTurn::Compiled(_) => seq![Op::CreateShader { kind: ShaderKind::Fragment }],
            _ => seq![],
        }),
        LinkStage::Fragment { vertex, stage } => compile_ops(stage, fragment_source, reply) + (
        match compile_turn(stage, reply) {
            CompileTurn::Await(_) => seq![],
            CompileTurn::Compiled(_) => seq![Op::CreateProgram],
            CompileTurn::Failed(_) => seq![Op::DeleteShader { shader: vertex }],
        }),
        LinkStage::Name { vertex, fragment } => match reply {
            Reply::Name(program) => seq![
                Op::AttachShader { program, shader: vertex },
                Op::AttachShader { program, shader: fragment },
                Op::LinkProgram { program },
                Op::GetLinkStatus { program },
            ],
            _ => seq![],
        },
        LinkStage::Status { program, vertex, fragment } => match reply {
            Reply::Value(status) => if status == 0 {
                seq![Op::GetProgramLogLength { program }]
            } else {
                seq![
                    Op::DetachShader { program, shader: vertex },
                    Op::DetachShader { program, shader: fragment },
                    Op::DeleteShader { shader: fragment },
                    Op::DeleteShader { shader: vertex },
                ]
            },
            _ => seq![],
        },
        LinkStage::LogLength { program, .. } => match reply {
            Reply::Value(capacity) => seq![Op::GetProgramInfoLog { program, capacity }],
            _ => seq![],
        },
        LinkStage::Log { vertex, fragment, .. } => match reply {
            Reply::Text(_) => seq![
                Op::DeleteShader { shader: fragment },
                Op::DeleteShader { shader: vertex },
            ],
            _ => seq![],
        },
    }
}

/// The shaders that a linking at `stage` has compiled and not yet deleted.
pub open spec fn compiled(stage: LinkStage) -> Set<u32> {
    match stage {
        LinkStage::Vertex(_) => set![],
        LinkStage::Fragment { vertex, .. } => set![vertex],
        LinkStage::Name { vertex, fragment } => set![vertex, fragment],
        LinkStage::Status { vertex, fragment, .. } => set![vertex, fragment],
        LinkStage::LogLength { vertex, fragment, .. } => set![vertex, fragment],
        LinkStage::Log { vertex, fragment, .. } => set![vertex, fragment],
    }
}

/// How many times `op` occurs in a batch.
pub open spec fn occurrences(batch: Seq<Op>, op: Op) -> nat
    decreases batch.len(),
{
    if batch.len() == 0 {
        0
    } else {
        occurrences(batch.drop_last(), op) + if batch.last() == op {
            1nat
        } else {
            0nat
        }
    }
}

/// No shader outlives the linking. While the linking waits, no shader is
/// deleted; with the step that ends it, every shader that was compiled is
/// deleted once and no other shader is deleted.
pub proof fn link_deletes_its_shaders_once(
    stage: LinkStage,
    vertex_source: Seq<char>,
    fragment_source: Seq<char>,
    reply: Reply,
    shader: u32,
)
    requires
        stage matches LinkStage::Name { vertex, fragment } ==> vertex != fragment,
        stage matches LinkStage::Status { vertex, fragment, .. } ==> vertex != fragment,
        stage matches LinkStage::LogLength { vertex, fragment, .. } ==> vertex != fragment,
        stage matches LinkStage::Log { vertex, fragment, .. } ==> vertex != fragment,
    ensures
        occurrences(
            link_ops(stage, vertex_source, fragment_source, reply),
            Op::DeleteShader { shader },
        ) == if link_turn(stage, reply) is Await || !compiled(stage).contains(shader) {
            0nat
        } else {
            1nat
        },
{
    let batch = link_ops(stage, vertex_source, fragment_source, reply);
    let op = Op::DeleteShader { shader };
    reveal_with_fuel(occurrences, 6);
    assert(batch.len() <= 4);
    if batch.len() > 0 {
        let b1 = batch.drop_last();
        if b1.len() > 0 {
            let b2 = b1.drop_last();
            if b2.len() > 0 {
                let b3 = b2.drop_last();
                if b3.len() > 0 {
                    let b4 = b3.drop_last();
                    assert(b4.len() == 0);
                }
            }
        }
    }
}

/// The linking of a program from the sources of its two stages, waiting
/// for an answer of the driver.
#[derive(Debug)]
pub struct Link {
    vertex_source: String,
    fragment_source: String,
    stage: LinkStage,
}

/// What a `Link` holds.
pub struct LinkState {
    pub vertex_source: Seq<char>,
    pub fragment_source: Seq<char>,
    pub stage: LinkStage,
}

impl View for Link {
    type V = LinkState;

    closed spec fn view(&self) -> LinkState {
        LinkState {
            vertex_source: self.vertex_source@,
            fragment_source: self.fragment_source@,
            stage: self.stage,
        }
    }
}

impl Link {
    /// The kind of answer that the linking waits for.
    pub fn awaits(&self) -> (kind: ReplyKind)
        ensures
            kind == link_awaits(self@.stage),
    {
        match self.stage {
            LinkStage::Vertex(stage) => awaited(stage),
            LinkStage::Fragment { stage, .. } => awaited(stage),
            LinkStage::Name { .. } => ReplyKind::Name,
            LinkStage::Status { .. } => ReplyKind::Value,
            LinkStage::LogLength { .. } => ReplyKind::Value,
            LinkStage::Log { .. } => ReplyKind::Text,
        }
    }

    /// Goes on with the linking after the driver's answer.
    ///
    /// The linking ends with the program, its cache of locations empty,
    /// where both compilations and the link succeed; with the failure of a
    /// compilation, unchanged; or with the linker's log, as it is. An answer
    /// of another kind than `awaits` gives is passed over.
    pub fn advance(self, reply: Reply) -> (step: Step<Link, Result<Program, Error>>)
        ensures
            ops(step.run@) == link_ops(
                self@.stage,
                self@.vertex_source,
                self@.fragment_source,
                reply,
            ),
            match link_turn(self@.stage, reply) {
                LinkTurn::Await(stage) => step.next matches Next::Await(link) && link@ == (LinkState {
                    vertex_source: self@.vertex_source,
                    fragment_source: self@.fragment_source,
                    stage,
                }),
                LinkTurn::Linked(program) => step.next matches Next::Done(Ok(p)) && p@ == (
                ProgramState { id: program, locations: Map::empty() }),
                LinkTurn::Failed(failure) => step.next matches Next::Done(Err(e)) && e@ == failure,
            },
    {
        let Link { vertex_source, fragment_source, stage } = self;
        match stage {
            LinkStage::Vertex(stage) => {
                let (compiled, mut run) = compile(stage, vertex_source.as_str(), reply);
                let next = match compiled {
                    Compiled::Await(stage) => Next::Await(
                        Link { vertex_source, fragment_source, stage: LinkStage::Vertex(stage) },
                    ),
                    Compiled::Shader(vertex) => {
                        issue(&mut run, Command::CreateShader { kind: ShaderKind::Fragment });
                        Next::Await(
                            Link {
                                vertex_source,
                                fragment_source,
                                stage: LinkStage::Fragment {
                                    vertex: vertex.id,
                                    stage: CompileStage::Name,
                                },
                            },
                        )
                    },
                    Compiled::Failed(log) => Next::Done(
                        Err(Error::ShaderCompile { stage: ShaderKind::Vertex, log }),
                    ),
                };
                assert(ops(run@) =~= link_ops(
                    self@.stage,
                    self@.vertex_source,
                    self@.fragment_source,
                    reply,
                ));
                Step { run, next }
            },
            LinkStage::Fragment { vertex, stage } => {
                let (compiled, mut run) = compile(stage, fragment_source.as_str(), reply);
                let next = match compiled {
                    Compiled::Await(stage) => Next::Await(
                        Link {
                            vertex_source,
                            fragment_source,
                            stage: LinkStage::Fragment { vertex, stage },
                        },
                    ),
                    Compiled::Shader(fragment) => {
                        issue(&mut run, Command::CreateProgram);
                        Next::Await(
                            Link {
                                vertex_source,
                                fragment_source,
                                stage: LinkStage::Name { vertex, fragment: fragment.id },
                            },
                        )
                    },
                    Compiled::Failed(log) => {
                        issue(&mut run, Command::DeleteShader { shader: vertex });
                        Next::Done(Err(Error::ShaderCompile { stage: ShaderKind::Fragment, log }))
                    },
                };
                assert(ops(run@) =~= link_ops(
                    self@.stage,
                    self@.vertex_source,
                    self@.fragment_source,
                    reply,
                ));
                Step { run, next }
            },
            LinkStage::Name { vertex, fragment } => match reply {
                Reply::Name(program) => {
                    let run = vec![
                        Command::AttachShader { program, shader: vertex },
                        Command::AttachShader { program, shader: fragment },
                        Command::LinkProgram { program },
                        Command::GetLinkStatus { program },
                    ];
                    assert(ops(run@) =~= link_ops(
                        self@.stage,
                        self@.vertex_source,
                        self@.fragment_source,
                        reply,
                    ));
                    Step {
                        run,
                        next: Next::Await(
                            Link {
                                vertex_source,
                                fragment_source,
                                stage: LinkStage::Status { program, vertex, fragment },
                            },
                        ),
                    }
                },
                _ => stay(vertex_source, fragment_source, stage),
            },
            LinkStage::Status { program, vertex, fragment } => match reply {
                Reply::Value(status) => {
                    if status == 0 {
                        let run = vec![Command::GetProgramLogLength { program }];
                        assert(ops(run@) =~= link_ops(
                            self@.stage,
                            self@.vertex_source,
                            self@.fragment_source,
                            reply,
                        ));
                        Step {
                            run,
                            next: Next::Await(
                                Link {
                                    vertex_source,
                                    fragment_source,
                                    stage: LinkStage::LogLength { program, vertex, fragment },
                                },
                            ),
                        }
                    } else {
                        let run = vec![
                            Command::DetachShader { program, shader: vertex },
                            Command::DetachShader { program, shader: fragment },
                            Command::DeleteShader { shader: fragment },
                            Command::DeleteShader { shader: vertex },
                        ];
                        assert(ops(run@) =~= link_ops(
                            self@.stage,
                            self@.vertex_source,
                            self@.fragment_source,
                            reply,
                        ));
                        Step {
                            run,
                            next: Next::Done(
                                Ok(Program { id: program, locations: StringHashMap::new() }),
                            ),
                        }
                    }
                },
                _ => stay(vertex_source, fragment_source, stage),
            },
            LinkStage::LogLength { program, vertex, fragment } => match reply {
                Reply::Value(capacity) => {
                    let run = vec![Command::GetProgramInfoLog { program, capacity }];
                    assert(ops(run@) =~= link_ops(
                        self@.stage,
                        self@.vertex_source,
                        self@.fragment_source,
                        reply,
                    ));
                    Step {
                        run,
                        next: Next::Await(
                            Link {
                                vertex_source,
                                fragment_source,
                                stage: LinkStage::Log { program, vertex, fragment },
                            },
                        ),
                    }
                },
                _ => stay(vertex_source, fragment_source, stage),
            },
            LinkStage::Log { vertex, fragment, .. } => match reply {
                Reply::Text(log) => {
                    let run = vec![
                        Command::DeleteShader { shader: fragment },
                        Command::DeleteShader { shader: vertex },
                    ];
                    assert(ops(run@) =~= link_ops(
                        self@.stage,
                        self@.vertex_source,
                        self@.fragment_source,
                        reply,
                    ));
                    Step { run, next: Next::Done(Err(Error::ShaderLink { log })) }
                },
                _ => stay(vertex_source, fragment_source, stage),
            },
        }
    }
}

/// The kind of answer that a compilation waits for.
fn awaited(stage: CompileStage) -> (kind: ReplyKind)
    ensures
        kind == compile_awaits(stage),
{
    match stage {
        CompileStage::Name => ReplyKind::Name,
        CompileStage::Status { .. } => ReplyKind::Value,
        CompileStage::LogLength { .. } => ReplyKind::Value,
        CompileStage::Log { .. } => ReplyKind::Text,
    }
}

/// The step of a linking that passes an answer over.
fn stay(vertex_source: String, fragment_source: String, stage: LinkStage) -> (step: Step<
    Link,
    Result<Program, Error>,
>)
    ensures
        step.run@ == Seq::<Command>::empty(),
        ops(step.run@) == Seq::<Op>::empty(),
        step.next matches Next::Await(link) && link@ == (LinkState {
            vertex_source: vertex_source@,
            fragment_source: fragment_source@,
            stage,
        }),
{
    let run = Vec::new();
    assert(ops(run@) =~= Seq::<Op>::empty());
    Step { run, next: Next::Await(Link { vertex_source, fragment_source, stage }) }
}

/// A linked program. It owns the driver's program object and remembers the
/// location of every uniform that was looked up.
pub struct Program {
    id: u32,
    locations: StringHashMap<i32>,
}

/// What a `Program` holds: the name of the program object and the
/// locations that are cached, by the uniform's name.
pub struct ProgramState {
    pub id: u32,
    pub locations: Map<Seq<char>, i32>,
}

impl View for Program {
    type V = ProgramState;

    closed spec fn view(&self) -> ProgramState {
        ProgramState { id: self.id, locations: self.locations@ }
    }
}

impl Program {
    /// Starts the linking of a program from the sources of its vertex and
    /// fragment stages: hands back the linking, which waits for the name of
    /// the vertex shader, and the command that asks for it.
    pub fn from_sources(vert_source: &str, frag_source: &str) -> (start: (Link, Vec<Command>))
        ensures
            start.0@ == (LinkState {
                vertex_source: vert_source@,
                fragment_source: frag_source@,
                stage: LinkStage::Vertex(CompileStage::Name),
            }),
            ops(start.1@) == seq![Op::CreateShader { kind: ShaderKind::Vertex }],
    {
        let run = vec![Command::CreateShader { kind: ShaderKind::Vertex }];
        assert(ops(run@) =~= seq![Op::CreateShader { kind: ShaderKind::Vertex }]);
        (
            Link {
                vertex_source: vert_source.to_owned(),
                fragment_source: frag_source.to_owned(),
                stage: LinkStage::Vertex(CompileStage::Name),
            },
            run,
        )
    }

    /// The name of the program object.
    pub fn id(&self) -> (id: u32)
        ensures
            id == self@.id,
    {
        self.id
    }

    /// Makes this program the one that draws.
    pub fn set_used(&self) -> (run: Vec<Command>)
        ensures
            ops(run@) == seq![Op::UseProgram { program: self@.id }],
    {
        let run = vec![Command::UseProgram { program: self.id }];
        assert(ops(run@) =~= seq![Op::UseProgram { program: self@.id }]);
        run
    }

    /// Sets the integer uniform `name` to `value`.
    ///
    /// Where the location of `name` is cached the value is uploaded to it at
    /// once. Else the driver is asked for the location, and the lookup that
    /// is handed back uploads the value once it is advanced with the answer.
    /// The cache is left as it is either way.
    pub fn set_int(&mut self, name: &str, value: i32) -> (step: Step<Lookup, ()>)
        ensures
            final(self)@ == old(self)@,
            old(self)@.locations.contains_key(name@) ==> step.next is Done && ops(step.run@)
                == seq![Op::Uniform1i { location: old(self)@.locations[name@], value }],
            !old(self)@.locations.contains_key(name@) ==> ops(step.run@) == seq![
                Op::GetUniformLocation { program: old(self)@.id, name: name@ },
            ] && (step.next matches Next::Await(lookup) && lookup@ == (LookupState {
                name: name@,
                value,
            })),
    {
        match self.locations.get(name) {
            Some(location) => {
                let run = vec![Command::Uniform1i { location: *location, value }];
                assert(ops(run@) =~= seq![
                    Op::Uniform1i { location: old(self)@.locations[name@], value },
                ]);
                Step { run, next: Next::Done(()) }
            },
            None => {
                let run = vec![
                    Command::GetUniformLocation { program: self.id, name: name.to_owned() },
                ];
                assert(ops(run@) =~= seq![
                    Op::GetUniformLocation { program: old(self)@.id, name: name@ },
                ]);
                Step { run, next: Next::Await(Lookup { name: name.to_owned(), value }) }
            },
        }
    }

    /// Gives the program object back to the driver.
    pub fn release(self) -> (run: Vec<Command>)
        ensures
            ops(run@) == seq![Op::DeleteProgram { program: self@.id }],
    {
        let run = vec![Command::DeleteProgram { program: self.id }];
        assert(ops(run@) =~= seq![Op::DeleteProgram { program: self@.id }]);
        run
    }
}

/// An integer uniform that waits for its location.
#[derive(Debug)]
pub struct Lookup {
    name: String,
    value: i32,
}

/// What a `Lookup` holds: the uniform's name and the value to upload.
pub struct LookupState {
    pub name: Seq<char>,
    pub value: i32,
}

impl View for Lookup {
    type V = LookupState;

    closed spec fn view(&self) -> LookupState {
        LookupState { name: self.name@, value: self.value }
    }
}

impl Lookup {
    /// Goes on after the driver's answer, on the program that started the
    /// lookup: caches the location that the driver gave and uploads the
    /// value to it.
    ///
    /// The location `-1`, which the driver gives for a name that is not an
    /// active uniform, is cached and used like any other. An answer that is
    /// not a value is passed over.
    pub fn advance(self, program: &mut Program, reply: Reply) -> (step: Step<Lookup, ()>)
        ensures
            match reply {
                Reply::Value(location) => {
                    &&& final(program)@ == (ProgramState {
                        id: old(program)@.id,
                        locations: old(program)@.locations.insert(self@.name, location),
                    })
                    &&& ops(step.run@) == seq![Op::Uniform1i { location, value: self@.value }]
                    &&& step.next is Done
                },
                _ => {
                    &&& final(program)@ == old(program)@
                    &&& ops(step.run@) == Seq::<Op>::empty()
                    &&& step.next matches Next::Await(lookup) && lookup@ == self@
                },
            },
    {
        match reply {
            Reply::Value(location) => {
                let Lookup { name, value } = self;
                program.locations.insert(name, location);
                let run = vec![Command::Uniform1i { location, value }];
                assert(ops(run@) =~= seq![Op::Uniform1i { location, value: self@.value }]);
                Step { run, next: Next::Done(()) }
            },
            _ => {
                let run = Vec::new();
                assert(ops(run@) =~= Seq::<Op>::empty());
                Step { run, next: Next::Await(self) }
            },
        }
    }
}

} // verus!
