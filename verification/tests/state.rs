use imgview::command::{
    BufferContents, BufferTarget, BufferUsage, Command, Next, Reply, ReplyKind, ShaderKind, Step,
    TextureParameter, TextureSetting,
};
use imgview::error::Error;
use imgview::geometry::{fit, quad, Ratio, Size};
use imgview::mesh::Vertex;
use imgview::bitmap::Bitmap;
use imgview::state::{load, title, Startup, State, FRAGMENT_SOURCE, VERTEX_SOURCE};

/// A driver that hands out names in sequence and reports what it is told
/// to about compilations and links.
struct Driver {
    names: u32,
    compile_status: Vec<i32>,
    link_status: i32,
    log: &'static str,
    sampler: i32,
    seen: Vec<Command>,
}

impl Driver {
    fn working() -> Driver {
        Driver { names: 0, compile_status: vec![1, 1], link_status: 1, log: "", sampler: 0, seen: Vec::new() }
    }

    fn name(&mut self) -> Option<Reply> {
        self.names += 1;
        Some(Reply::Name(self.names))
    }

    fn run(&mut self, command: &Command) -> Option<Reply> {
        self.seen.push(command.clone());
        match command {
            Command::CreateShader { .. }
            | Command::CreateProgram
            | Command::GenTexture
            | Command::GenVertexArray
            | Command::GenBuffer => self.name(),
            Command::GetCompileStatus { .. } => Some(Reply::Value(self.compile_status.remove(0))),
            Command::GetLinkStatus { .. } => Some(Reply::Value(self.link_status)),
            Command::GetShaderLogLength { .. } | Command::GetProgramLogLength { .. } => {
                Some(Reply::Value(self.log.len() as i32))
            }
            Command::GetShaderInfoLog { capacity, .. } | Command::GetProgramInfoLog { capacity, .. } => {
                assert_eq!(*capacity as usize, self.log.len());
                Some(Reply::Text(String::from(self.log)))
            }
            Command::GetUniformLocation { .. } => Some(Reply::Value(self.sampler)),
            _ => None,
        }
    }

    fn run_all(&mut self, run: &[Command]) -> Option<Reply> {
        let mut last = None;
        for command in run {
            last = self.run(command);
        }
        last
    }

    fn drive<M, T>(&mut self, first: Step<M, T>, advance: impl Fn(M, Reply) -> Step<M, T>) -> T {
        let mut step = first;
        loop {
            let reply = self.run_all(&step.run);
            match step.next {
                Next::Done(outcome) => return outcome,
                Next::Await(machine) => step = advance(machine, reply.expect("no answer")),
            }
        }
    }

    fn start(&mut self, size: Size, path: Option<&str>, image: Option<Bitmap>) -> Result<State, Error> {
        let (startup, run) = State::new(size, path.map(String::from), image);
        self.drive(Step { run, next: Next::Await(startup) }, Startup::advance)
    }

    fn frame(&mut self, state: &mut State) {
        let mut step = state.render();
        loop {
            let reply = self.run_all(&step.run);
            match step.next {
                Next::Done(()) => return,
                Next::Await(lookup) => step = state.resume(lookup, reply.expect("no answer")),
            }
        }
    }
}

fn size(width: u32, height: u32) -> Size {
    Size { width, height }
}

fn plain(num: u64, den: u64) -> Ratio {
    Ratio { negative: false, num, den }
}

fn value(r: Ratio) -> f32 {
    let magnitude = r.num as f32 / r.den as f32;
    if r.negative {
        -magnitude
    } else {
        magnitude
    }
}

fn positions(vertices: &[Vertex]) -> Vec<(f32, f32)> {
    vertices.iter().map(|v| (value(v.position[0]), value(v.position[1]))).collect()
}

/// A 2 by 1 image: a red pixel, then a blue one.
fn picture() -> Bitmap {
    Bitmap::new(2, 1, vec![255, 0, 0, 255, 0, 0, 255, 255]).unwrap()
}

/// A 2 by 2 image of one colour.
fn solid(rgb: [u8; 3]) -> Bitmap {
    let pixel = [rgb[0], rgb[1], rgb[2], 255];
    Bitmap::new(2, 2, [pixel, pixel, pixel, pixel].concat()).unwrap()
}

fn started(driver: &mut Driver, window: Size) -> State {
    match driver.start(window, Some("picture.png"), Some(picture())) {
        Ok(state) => state,
        Err(e) => panic!("{:?}", e),
    }
}

fn failure(outcome: Result<State, Error>) -> Error {
    match outcome {
        Err(e) => e,
        Ok(_) => panic!("started"),
    }
}

#[test]
fn startup_issues_every_command_in_order() {
    let mut driver = Driver::working();
    let state = started(&mut driver, size(800, 600));
    let fitted = quad(fit(size(800, 600), size(2, 1)));
    assert_eq!(
        driver.seen,
        vec![
            Command::Viewport { width: 800, height: 600 },
            Command::CreateShader { kind: ShaderKind::Vertex },
            Command::ShaderSource { shader: 1, source: String::from(VERTEX_SOURCE) },
            Command::CompileShader { shader: 1 },
            Command::GetCompileStatus { shader: 1 },
            Command::CreateShader { kind: ShaderKind::Fragment },
            Command::ShaderSource { shader: 2, source: String::from(FRAGMENT_SOURCE) },
            Command::CompileShader { shader: 2 },
            Command::GetCompileStatus { shader: 2 },
            Command::CreateProgram,
            Command::AttachShader { program: 3, shader: 1 },
            Command::AttachShader { program: 3, shader: 2 },
            Command::LinkProgram { program: 3 },
            Command::GetLinkStatus { program: 3 },
            Command::DetachShader { program: 3, shader: 1 },
            Command::DetachShader { program: 3, shader: 2 },
            Command::DeleteShader { shader: 2 },
            Command::DeleteShader { shader: 1 },
            Command::GenTexture,
            Command::BindTexture { texture: 4 },
            Command::TexParameter { parameter: TextureParameter::WrapS, setting: TextureSetting::ClampToEdge },
            Command::TexParameter { parameter: TextureParameter::WrapT, setting: TextureSetting::ClampToEdge },
            Command::TexParameter {
                parameter: TextureParameter::MinFilter,
                setting: TextureSetting::LinearMipmapLinear
            },
            Command::TexParameter { parameter: TextureParameter::MagFilter, setting: TextureSetting::Linear },
            Command::TexImage2D { width: 2, height: 1, pixels: vec![255, 0, 0, 255, 0, 0, 255, 255] },
            Command::GenerateMipmap,
            Command::GenVertexArray,
            Command::BindVertexArray { array: 5 },
            Command::GenBuffer,
            Command::BindBuffer { target: BufferTarget::Array, buffer: 6 },
            Command::BufferData {
                target: BufferTarget::Array,
                size: 64,
                contents: BufferContents::Vertices(fitted.clone()),
                usage: BufferUsage::DynamicDraw,
            },
            Command::EnableVertexAttribArray { index: 0 },
            Command::VertexAttribPointer { index: 0, components: 2, stride: 16, offset: 0 },
            Command::EnableVertexAttribArray { index: 1 },
            Command::VertexAttribPointer { index: 1, components: 2, stride: 16, offset: 8 },
            Command::GenBuffer,
            Command::BindBuffer { target: BufferTarget::ElementArray, buffer: 7 },
            Command::BufferData {
                target: BufferTarget::ElementArray,
                size: 24,
                contents: BufferContents::Indices(vec![0, 2, 1, 0, 3, 2]),
                usage: BufferUsage::StaticDraw,
            },
            Command::BindVertexArray { array: 0 },
        ]
    );
    assert_eq!(state.program().id(), 3);
    assert_eq!((state.texture().id(), state.texture().width(), state.texture().height()), (4, 2, 1));
    assert_eq!((state.mesh().vao(), state.mesh().vbo(), state.mesh().ebo()), (5, 6, 7));
    assert_eq!(state.mesh().num_indices(), 6);
    assert_eq!(state.mesh().vertices(), &fitted);
}

#[test]
fn startup_fits_the_quad_to_the_window() {
    // The image is twice as wide as high; the window is square.
    let state = started(&mut Driver::working(), size(500, 500));
    assert_eq!(
        positions(state.mesh().vertices()),
        vec![(-1.0, -0.5), (-1.0, 0.5), (1.0, 0.5), (1.0, -0.5)]
    );
    // The window is four times as wide as high.
    let state = started(&mut Driver::working(), size(400, 100));
    assert_eq!(
        positions(state.mesh().vertices()),
        vec![(-0.5, -1.0), (-0.5, 1.0), (0.5, 1.0), (0.5, -1.0)]
    );
}

#[test]
fn startup_waits_for_the_kind_of_answer_it_says() {
    let (startup, run) = State::new(size(1, 1), Some(String::from("picture.png")), Some(picture()));
    let mut driver = Driver::working();
    let mut step: Step<Startup, Result<State, Error>> = Step { run, next: Next::Await(startup) };
    let mut kinds = Vec::new();
    loop {
        let reply = driver.run_all(&step.run);
        match step.next {
            Next::Done(outcome) => {
                assert!(outcome.is_ok());
                break;
            }
            Next::Await(startup) => {
                let reply = reply.unwrap();
                assert_eq!(startup.awaits(), reply.kind());
                kinds.push(reply.kind());
                step = startup.advance(reply);
            }
        }
    }
    assert_eq!(
        kinds,
        vec![
            ReplyKind::Name,
            ReplyKind::Value,
            ReplyKind::Name,
            ReplyKind::Value,
            ReplyKind::Name,
            ReplyKind::Value,
            ReplyKind::Name,
            ReplyKind::Name,
            ReplyKind::Name,
            ReplyKind::Name,
        ]
    );
}

#[test]
fn startup_passes_over_an_answer_of_the_wrong_kind() {
    let (startup, _) = State::new(size(1, 1), None, None);
    let step = startup.advance(Reply::Text(String::from("?")));
    assert_eq!(step.run, vec![]);
    match step.next {
        Next::Await(startup) => assert_eq!(startup.awaits(), ReplyKind::Name),
        Next::Done(_) => panic!("start-up is over"),
    }
}

#[test]
fn missing_argument_is_reported_after_linking() {
    let mut driver = Driver::working();
    let error = failure(driver.start(size(800, 600), None, None));
    assert_eq!(error, Error::MissingArgument);
    assert_eq!(driver.seen.len(), 18);
    assert_eq!(driver.seen.last(), Some(&Command::DeleteShader { shader: 1 }));
}

#[test]
fn unreadable_file_is_reported_with_its_path() {
    let mut driver = Driver::working();
    let error = failure(driver.start(size(800, 600), Some("gone.png"), None));
    assert_eq!(error, Error::ImageLoad { path: String::from("gone.png") });
    assert_eq!(driver.seen.len(), 18);
}

#[test]
fn image_without_a_name_is_a_missing_argument() {
    let mut driver = Driver::working();
    let error = failure(driver.start(size(800, 600), None, Some(picture())));
    assert_eq!(error, Error::MissingArgument);
    assert_eq!(driver.seen.len(), 18);
    assert!(!driver.seen.contains(&Command::GenTexture));
}

#[test]
fn vertex_compile_error_ends_startup() {
    let mut driver = Driver::working();
    driver.compile_status = vec![0];
    driver.log = "0:1: syntax error\0";
    let error = failure(driver.start(size(800, 600), Some("picture.png"), Some(picture())));
    assert_eq!(
        error,
        Error::ShaderCompile { stage: ShaderKind::Vertex, log: String::from("0:1: syntax error\0") }
    );
    assert_eq!(
        driver.seen[5..],
        [Command::GetShaderLogLength { shader: 1 }, Command::GetShaderInfoLog { shader: 1, capacity: 18 }]
    );
}

#[test]
fn fragment_compile_error_ends_startup() {
    let mut driver = Driver::working();
    driver.compile_status = vec![1, 0];
    driver.log = "bad";
    let error = failure(driver.start(size(800, 600), None, None));
    assert_eq!(error, Error::ShaderCompile { stage: ShaderKind::Fragment, log: String::from("bad") });
    assert_eq!(driver.seen.last(), Some(&Command::DeleteShader { shader: 1 }));
}

#[test]
fn link_error_ends_startup_before_the_image_is_looked_at() {
    let mut driver = Driver::working();
    driver.link_status = 0;
    driver.log = "unresolved";
    let error = failure(driver.start(size(800, 600), None, None));
    assert_eq!(error, Error::ShaderLink { log: String::from("unresolved") });
    assert_eq!(
        driver.seen[14..],
        [
            Command::GetProgramLogLength { program: 3 },
            Command::GetProgramInfoLog { program: 3, capacity: 10 },
            Command::DeleteShader { shader: 2 },
            Command::DeleteShader { shader: 1 },
        ]
    );
}

#[test]
fn resize_sets_viewport_and_rewrites_vertices() {
    let mut state = started(&mut Driver::working(), size(800, 600));
    let run = state.resize(size(400, 100));
    let fitted = quad(fit(size(400, 100), size(2, 1)));
    assert_eq!(
        run,
        vec![
            Command::Viewport { width: 400, height: 100 },
            Command::BufferSubData {
                target: BufferTarget::Array,
                offset: 0,
                size: 64,
                contents: BufferContents::Vertices(fitted.clone()),
            },
        ]
    );
    assert_eq!(state.mesh().vertices(), &fitted);
    assert_eq!(fitted[2].position, [plain(200, 400), plain(1, 1)]);
}

#[test]
fn resize_to_the_same_size_changes_nothing() {
    let mut state = started(&mut Driver::working(), size(800, 600));
    let first = state.resize(size(1024, 768));
    let vertices = state.mesh().vertices().clone();
    for _ in 0..3 {
        let again = state.resize(size(1024, 768));
        assert_eq!(again, first);
        assert_eq!(state.mesh().vertices(), &vertices);
    }
}

#[test]
fn resize_keeps_every_object() {
    let mut state = started(&mut Driver::working(), size(800, 600));
    for window in [size(1, 1), size(1920, 1080), size(0, 0), size(300, 4000)] {
        let run = state.resize(window);
        assert!(run.iter().all(|c| matches!(c, Command::Viewport { .. } | Command::BufferSubData { .. })));
        assert_eq!(state.program().id(), 3);
        assert_eq!((state.texture().id(), state.texture().width(), state.texture().height()), (4, 2, 1));
        assert_eq!((state.mesh().vao(), state.mesh().vbo(), state.mesh().ebo()), (5, 6, 7));
        assert_eq!(state.mesh().num_indices(), 6);
        assert_eq!(state.mesh().vertices().len(), 4);
    }
}

#[test]
fn first_frame_looks_the_sampler_up() {
    let mut driver = Driver::working();
    driver.sampler = 2;
    let mut state = started(&mut driver, size(800, 600));
    driver.seen.clear();
    driver.frame(&mut state);
    assert_eq!(
        driver.seen,
        vec![
            Command::ClearColor { red: 0, green: 0, blue: 0, alpha: 255 },
            Command::Clear,
            Command::UseProgram { program: 3 },
            Command::GetUniformLocation { program: 3, name: String::from("texture0") },
            Command::Uniform1i { location: 2, value: 0 },
            Command::ActiveTexture { unit: 0 },
            Command::BindTexture { texture: 4 },
            Command::BindVertexArray { array: 5 },
            Command::DrawElements { count: 6 },
        ]
    );
}

#[test]
fn later_frames_do_not_ask_again() {
    let mut driver = Driver::working();
    driver.sampler = -1;
    let mut state = started(&mut driver, size(800, 600));
    driver.frame(&mut state);
    for _ in 0..2 {
        driver.seen.clear();
        driver.frame(&mut state);
        assert_eq!(
            driver.seen,
            vec![
                Command::ClearColor { red: 0, green: 0, blue: 0, alpha: 255 },
                Command::Clear,
                Command::UseProgram { program: 3 },
                Command::Uniform1i { location: -1, value: 0 },
                Command::ActiveTexture { unit: 0 },
                Command::BindTexture { texture: 4 },
                Command::BindVertexArray { array: 5 },
                Command::DrawElements { count: 6 },
            ]
        );
    }
}

#[test]
fn frame_passes_over_an_answer_that_is_no_value() {
    let mut state = started(&mut Driver::working(), size(800, 600));
    let lookup = match state.render().next {
        Next::Await(lookup) => lookup,
        Next::Done(()) => panic!("drawn"),
    };
    let step = state.resume(lookup, Reply::Name(1));
    assert_eq!(step.run, vec![]);
    let lookup = match step.next {
        Next::Await(lookup) => lookup,
        Next::Done(()) => panic!("drawn"),
    };
    let step = state.resume(lookup, Reply::Value(1));
    assert_eq!(step.run.len(), 5);
}

#[test]
fn solid_image_is_uploaded_whole_and_drawn() {
    let mut driver = Driver::working();
    let colour = [12, 200, 99];
    let mut state = match driver.start(size(640, 480), Some("solid.png"), Some(solid(colour))) {
        Ok(state) => state,
        Err(e) => panic!("{:?}", e),
    };
    let uploaded = driver.seen.iter().find_map(|c| match c {
        Command::TexImage2D { width, height, pixels } => Some((*width, *height, pixels.clone())),
        _ => None,
    });
    assert_eq!(
        uploaded,
        Some((2, 2, vec![12, 200, 99, 255, 12, 200, 99, 255, 12, 200, 99, 255, 12, 200, 99, 255]))
    );
    driver.seen.clear();
    driver.frame(&mut state);
    assert!(driver.seen.contains(&Command::BindTexture { texture: 4 }));
    assert_eq!(driver.seen.last(), Some(&Command::DrawElements { count: 6 }));
}

#[test]
fn release_gives_everything_back_in_reverse() {
    let state = started(&mut Driver::working(), size(800, 600));
    assert_eq!(
        state.release(),
        vec![
            Command::DeleteBuffer { buffer: 7 },
            Command::DeleteBuffer { buffer: 6 },
            Command::DeleteVertexArray { array: 5 },
            Command::DeleteTexture { texture: 4 },
            Command::DeleteProgram { program: 3 },
        ]
    );
}

#[test]
fn shader_sources_name_what_the_mesh_feeds() {
    assert!(VERTEX_SOURCE.contains("layout (location = 0) in vec2 position;"));
    assert!(VERTEX_SOURCE.contains("layout (location = 1) in vec2 tex_coords;"));
    assert!(FRAGMENT_SOURCE.contains("uniform sampler2D texture0;"));
}

#[test]
fn failures_are_reported_in_words() {
    assert_eq!(Error::MissingArgument.message(), "引数の数が正しくありません");
    assert_eq!(
        Error::ImageLoad { path: String::from("dir/cat.png") }.message(),
        "`dir/cat.png` を読み込むことができません"
    );
    assert_eq!(
        Error::ShaderCompile { stage: ShaderKind::Vertex, log: String::from("0:1: error\n\0") }.message(),
        "0:1: error\n\0"
    );
    assert_eq!(Error::ShaderLink { log: String::from("") }.message(), "");
}

#[test]
fn title_names_the_file() {
    assert_eq!(title("dir/cat.png"), "dir/cat.png - imgview");
    assert_eq!(title(""), " - imgview");
}

#[test]
fn load_reports_what_is_missing() {
    assert_eq!(load(None, None), Err(Error::MissingArgument));
    assert_eq!(load(None, Some(picture())), Err(Error::MissingArgument));
    assert_eq!(
        load(Some(String::from("a.png")), None),
        Err(Error::ImageLoad { path: String::from("a.png") })
    );
    assert_eq!(load(Some(String::from("a.png")), Some(picture())), Ok(picture()));
}

#[test]
fn startup_with_a_decoded_image_uploads_it_upside_down() {
    let image = Bitmap::new(1, 2, vec![1, 2, 3, 4, 5, 6, 7, 8]).unwrap();
    let (startup, run) = State::with_image(size(300, 300), Ok(image));
    assert_eq!(
        run,
        vec![
            Command::Viewport { width: 300, height: 300 },
            Command::CreateShader { kind: ShaderKind::Vertex },
        ]
    );
    let mut driver = Driver::working();
    let state = match driver.drive(Step { run, next: Next::Await(startup) }, Startup::advance) {
        Ok(state) => state,
        Err(e) => panic!("{:?}", e),
    };
    assert!(driver.seen.contains(&Command::TexImage2D {
        width: 1,
        height: 2,
        pixels: vec![5, 6, 7, 8, 1, 2, 3, 4]
    }));
    assert_eq!((state.texture().width(), state.texture().height()), (1, 2));
    assert_eq!(
        positions(state.mesh().vertices()),
        vec![(-0.5, -1.0), (-0.5, 1.0), (0.5, 1.0), (0.5, -1.0)]
    );
}

#[test]
fn startup_with_a_failure_ends_once_the_program_is_linked() {
    let failure = Error::ImageLoad { path: String::from("x.png") };
    let (startup, run) = State::with_image(size(300, 300), Err(failure.clone()));
    let mut driver = Driver::working();
    let outcome = driver.drive(Step { run, next: Next::Await(startup) }, Startup::advance);
    match outcome {
        Err(e) => assert_eq!(e, failure),
        Ok(_) => panic!("started"),
    }
    assert_eq!(driver.seen.len(), 18);
    assert_eq!(driver.seen.last(), Some(&Command::DeleteShader { shader: 1 }));
}
