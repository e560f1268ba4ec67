//! The drawing program: the protocol that sets it up on a graphics context,
//! step by step, and the order of the calls that draw one quad with it.
//!
//! The context itself is not here. Its owner performs the step that
//! [`ProgramSetup::pending`] names and hands back what the context answered;
//! [`ProgramSetup::next`] decides how the setup goes on.

use vstd::prelude::*;

verus! {

/// A name that the program's source declares and the setup looks up.
#[derive(Clone, Copy, Debug, PartialEq, Eq, Structural)]
pub enum Symbol {
    /// The attribute that receives the vertex position.
    VertexPosition,
    /// The uniform that receives the colour.
    VertexColor,
    /// The uniform that receives the model-view matrix.
    ModelViewMatrix,
    /// The uniform that receives the projection matrix.
    ProjectionMatrix,
}

/// The name of a symbol in the program's source.
pub open spec fn symbol_name(symbol: Symbol) -> Seq<char> {
    match symbol {
        Symbol::VertexPosition => "aVertexPosition"@,
        Symbol::VertexColor => "uVertexColor"@,
        Symbol::ModelViewMatrix => "uModelViewMatrix"@,
        Symbol::ProjectionMatrix => "uProjectionMatrix"@,
    }
}

impl Symbol {
    /// The name of the symbol in the program's source.
    pub fn name(&self) -> (name: &'static str)
        ensures
            name@ == symbol_name(*self),
    {
        match self {
            Symbol::VertexPosition => "aVertexPosition",
            Symbol::VertexColor => "uVertexColor",
            Symbol::ModelViewMatrix => "uModelViewMatrix",
            Symbol::ProjectionMatrix => "uProjectionMatrix",
        }
    }
}

/// Why a setup failed. Each failure ends the setup for good.
#[derive(Debug, PartialEq, Eq)]
pub enum SetupError {
    /// A shader stage did not compile; the text is the compiler's.
    ShaderCompile(String),
    /// The stages did not link; the text is the linker's.
    ProgramLink(String),
    /// The linked program does not hold this symbol.
    LocationNotFound(Symbol),
    /// The surface or its context could not provide what was asked of it.
    SurfaceSetup(String),
}

/// A failure, with its text as a sequence of characters.
pub enum Failure {
    ShaderCompile(Seq<char>),
    ProgramLink(Seq<char>),
    LocationNotFound(Symbol),
    SurfaceSetup(Seq<char>),
}

impl View for SetupError {
    type V = Failure;

    open spec fn view(&self) -> Failure {
        match self {
            SetupError::ShaderCompile(text) => Failure::ShaderCompile(text@),
            SetupError::ProgramLink(text) => Failure::ProgramLink(text@),
            SetupError::LocationNotFound(symbol) => Failure::LocationNotFound(*symbol),
            SetupError::SurfaceSetup(text) => Failure::SurfaceSetup(text@),
        }
    }
}

/// A step of the setup, in the order in which they are taken.
#[derive(Clone, Copy, Debug, PartialEq, Eq, Structural)]
pub enum SetupStep {
    /// Create and compile the vertex stage.
    CompileVertex,
    /// Create and compile the fragment stage.
    CompileFragment,
    /// Create the program, attach both stages and link.
    Link,
    /// Look up the location of a symbol in the linked program.
    Locate(Symbol),
    /// Create the vertex buffer and store the quad in it.
    UploadQuad,
    /// Nothing is left to do: the program can draw.
    Ready,
}

/// What the context answered to a step.
#[derive(Debug, PartialEq, Eq)]
pub enum Reply {
    /// The context could not create the shader, program or buffer object.
    Unavailable,
    /// The compile or link status that the context reports, if it reports
    /// one, and its diagnostic log, if it has one.
    Status { ok: Option<bool>, log: Option<String> },
    /// The location of the attribute; a negative number where the program
    /// has no such attribute.
    Attribute(i32),
    /// Whether the program has the uniform.
    Uniform(bool),
    /// The buffer holds the quad.
    Stored,
}

/// The step that follows a step that succeeded.
pub open spec fn following(step: SetupStep) -> SetupStep {
    match step {
        SetupStep::CompileVertex => SetupStep::CompileFragment,
        SetupStep::CompileFragment => SetupStep::Link,
        SetupStep::Link => SetupStep::Locate(Symbol::VertexPosition),
        SetupStep::Locate(Symbol::VertexPosition) => SetupStep::Locate(Symbol::VertexColor),
        SetupStep::Locate(Symbol::VertexColor) => SetupStep::Locate(Symbol::ModelViewMatrix),
        SetupStep::Locate(Symbol::ModelViewMatrix) => SetupStep::Locate(Symbol::ProjectionMatrix),
        SetupStep::Locate(Symbol::ProjectionMatrix) => SetupStep::UploadQuad,
        SetupStep::UploadQuad => SetupStep::Ready,
        SetupStep::Ready => SetupStep::Ready,
    }
}

/// Number of steps that are left from `step` on.
pub open spec fn steps_left(step: SetupStep) -> nat {
    match step {
        SetupStep::CompileVertex => 8,
        SetupStep::CompileFragment => 7,
        SetupStep::Link => 6,
        SetupStep::Locate(Symbol::VertexPosition) => 5,
        SetupStep::Locate(Symbol::VertexColor) => 4,
        SetupStep::Locate(Symbol::ModelViewMatrix) => 3,
        SetupStep::Locate(Symbol::ProjectionMatrix) => 2,
        SetupStep::UploadQuad => 1,
        SetupStep::Ready => 0,
    }
}

/// Whether `reply` is an answer that the context can give to `step`.
pub open spec fn answers(step: SetupStep, reply: Reply) -> bool {
    match step {
        SetupStep::CompileVertex | SetupStep::CompileFragment | SetupStep::Link => reply is Unavailable
            || reply is Status,
        SetupStep::Locate(Symbol::VertexPosition) => reply is Attribute,
        SetupStep::Locate(_) => reply is Uniform,
        SetupStep::UploadQuad => reply is Unavailable || reply is Stored,
        SetupStep::Ready => false,
    }
}

/// The diagnostic of a failed compile or link: the context's log, or the
/// given text where it has none.
pub open spec fn diagnostic(log: Option<String>, fallback: Seq<char>) -> Seq<char> {
    match log {
        Some(text) => text@,
        None => fallback,
    }
}

/// The failure that `reply` means at `step`, if it means one.
pub open spec fn failure_of(step: SetupStep, reply: Reply) -> Option<Failure> {
    match (step, reply) {
        (SetupStep::CompileVertex, Reply::Unavailable) | (
            SetupStep::CompileFragment,
            Reply::Unavailable,
        ) => Some(Failure::ShaderCompile("Unable to create shader object"@)),
        (SetupStep::CompileVertex, Reply::Status { ok, log }) | (
            SetupStep::CompileFragment,
            Reply::Status { ok, log },
        ) => if ok == Some(true) {
            None
        } else {
            Some(Failure::ShaderCompile(diagnostic(log, "Unknown error creating shader"@)))
        },
        (SetupStep::Link, Reply::Unavailable) => Some(
            Failure::ProgramLink("Unable to create shader object"@),
        ),
        (SetupStep::Link, Reply::Status { ok, log }) => if ok == Some(true) {
            None
        } else {
            Some(Failure::ProgramLink(diagnostic(log, "Unknown error creating program object"@)))
        },
        (SetupStep::Locate(symbol), Reply::Attribute(at)) => if at < 0 {
            Some(Failure::LocationNotFound(symbol))
        } else {
            None
        },
        (SetupStep::Locate(symbol), Reply::Uniform(found)) => if found {
            None
        } else {
            Some(Failure::LocationNotFound(symbol))
        },
        (SetupStep::UploadQuad, Reply::Unavailable) => Some(
            Failure::SurfaceSetup("failed to create buffer"@),
        ),
        _ => None,
    }
}

/// A setup under way: the step that is due, and the location of the vertex
/// attribute once it is known. Only [`ProgramSetup::new`] and
/// [`ProgramSetup::next`] make one.
#[derive(Debug)]
pub struct ProgramSetup {
    step: SetupStep,
    vertex_position: u32,
}

/// A program that is set up. Only [`SquareProgram::new`] makes one, from a
/// setup that has taken all its steps, and its locations never change.
#[derive(Debug)]
pub struct SquareProgram {
    vertex_position: u32,
}

/// One call on the context while a quad is drawn.
#[derive(Clone, Copy, Debug, PartialEq, Eq, Structural)]
pub enum DrawStep {
    /// Make the program current.
    UseProgram,
    /// Store the projection matrix in its uniform.
    SetProjection,
    /// Store the model-view matrix in its uniform.
    SetModelView,
    /// Store the colour in its uniform.
    SetColor,
    /// Bind the buffer that holds the quad.
    BindQuad,
    /// Describe the bound buffer to the attribute at `index`: `components`
    /// floats per vertex, `stride` bytes from one vertex to the next (0:
    /// tightly packed), starting `offset` bytes into the buffer.
    PointAttribute { index: u32, components: u32, normalized: bool, stride: u32, offset: u32 },
    /// Switch on the attribute's array.
    EnableAttribute { index: u32 },
    /// Draw `count` vertices from vertex `first` on, as triangles.
    DrawTriangles { first: u32, count: u32 },
    /// Ask the context for its error flag; an error is reported and the
    /// frame goes on.
    CheckError,
    /// Make no program current.
    ReleaseProgram,
}

/// The calls that draw one quad, in their order, for a program whose vertex
/// attribute is at `index`. The buffer is described to attribute 0, the
/// first attribute of the program, and the array at `index` is switched on.
pub open spec fn draw_steps(index: u32) -> Seq<DrawStep> {
    seq![
        DrawStep::UseProgram,
        DrawStep::SetProjection,
        DrawStep::SetModelView,
        DrawStep::SetColor,
        DrawStep::BindQuad,
        DrawStep::PointAttribute {
            index: 0,
            components: 3,
            normalized: false,
            stride: 0,
            offset: 0,
        },
        DrawStep::EnableAttribute { index },
        DrawStep::DrawTriangles { first: 0, count: 6 },
        DrawStep::CheckError,
        DrawStep::ReleaseProgram,
    ]
}

/// The quad: two triangles in the plane z = 0 that cover the square from
/// (-1, -1) to (1, 1), three coordinates for each of the six vertices.
pub open spec fn quad() -> Seq<i8> {
    seq![-1i8, -1i8, 0i8, 1i8, -1i8, 0i8, 1i8, 1i8, 0i8, -1i8, -1i8, 0i8, 1i8, 1i8, 0i8, -1i8, 1i8, 0i8]
}

/// The coordinates that the vertex buffer holds.
pub fn quad_vertices() -> (coords: Vec<i8>)
    ensures
        coords@ == quad(),
{
    let coords: Vec<i8> = vec![-1, -1, 0, 1, -1, 0, 1, 1, 0, -1, -1, 0, 1, 1, 0, -1, 1, 0];
    assert(coords@ =~= quad());
    coords
}

impl ProgramSetup {
    /// The step that is due.
    pub closed spec fn due(&self) -> SetupStep {
        self.step
    }

    /// The location of the vertex attribute, once that step is taken.
    pub closed spec fn located(&self) -> u32 {
        self.vertex_position
    }

    /// A setup at its first step.
    pub fn new() -> (setup: ProgramSetup)
        ensures
            setup.due() == SetupStep::CompileVertex,
            setup.located() == 0,
    {
        ProgramSetup { step: SetupStep::CompileVertex, vertex_position: 0 }
    }

    /// The step that is due.
    pub fn pending(&self) -> (step: SetupStep)
        ensures
            step == self.due(),
    {
        self.step
    }

    /// Whether `reply` is an answer to the step that is due.
    pub fn accepts(&self, reply: &Reply) -> (fit: bool)
        ensures
            fit == answers(self.due(), *reply),
    {
        match self.step {
            SetupStep::CompileVertex | SetupStep::CompileFragment | SetupStep::Link => match reply {
                Reply::Unavailable => true,
                Reply::Status { .. } => true,
                _ => false,
            },
            SetupStep::Locate(Symbol::VertexPosition) => match reply {
                Reply::Attribute(_) => true,
                _ => false,
            },
            SetupStep::Locate(_) => match reply {
                Reply::Uniform(_) => true,
                _ => false,
            },
            SetupStep::UploadQuad => match reply {
                Reply::Unavailable => true,
                Reply::Stored => true,
                _ => false,
            },
            SetupStep::Ready => false,
        }
    }

    /// Takes the context's answer to the step that is due. A failure ends
    /// the setup with its error; otherwise the next step is due, and the
    /// location of the vertex attribute is kept once it was answered.
    pub fn next(self, reply: Reply) -> (result: Result<ProgramSetup, SetupError>)
        requires
            answers(self.due(), reply),
        ensures
            match result {
                Ok(setup) => {
                    &&& failure_of(self.due(), reply) is None
                    &&& setup.due() == following(self.due())
                    &&& setup.located() == match reply {
                        Reply::Attribute(at) => at as u32,
                        _ => self.located(),
                    }
                },
                Err(error) => failure_of(self.due(), reply) == Some(error@),
            },
    {
        let kept: u32 = self.vertex_position;
        match self.step {
            SetupStep::CompileVertex => match compile_shader(reply) {
                Ok(()) => Ok(ProgramSetup { step: SetupStep::CompileFragment, vertex_position: kept }),
                Err(error) => Err(error),
            },
            SetupStep::CompileFragment => match compile_shader(reply) {
                Ok(()) => Ok(ProgramSetup { step: SetupStep::Link, vertex_position: kept }),
                Err(error) => Err(error),
            },
            SetupStep::Link => match link_program(reply) {
                Ok(()) => Ok(
                    ProgramSetup {
                        step: SetupStep::Locate(Symbol::VertexPosition),
                        vertex_position: kept,
                    },
                ),
                Err(error) => Err(error),
            },
            SetupStep::Locate(symbol) => match reply {
                Reply::Attribute(at) => {
                    if at < 0 {
                        Err(SetupError::LocationNotFound(symbol))
                    } else {
                        Ok(
                            ProgramSetup {
                                step: SetupStep::Locate(Symbol::VertexColor),
                                vertex_position: at as u32,
                            },
                        )
                    }
                },
                Reply::Uniform(found) => {
                    if found {
                        let step = match symbol {
                            Symbol::VertexColor => SetupStep::Locate(Symbol::ModelViewMatrix),
                            Symbol::ModelViewMatrix => SetupStep::Locate(Symbol::ProjectionMatrix),
                            _ => SetupStep::UploadQuad,
                        };
                        Ok(ProgramSetup { step, vertex_position: kept })
                    } else {
                        Err(SetupError::LocationNotFound(symbol))
                    }
                },
                _ => Ok(self),
            },
            SetupStep::UploadQuad => match reply {
                Reply::Unavailable => Err(
                    SetupError::SurfaceSetup("failed to create buffer".to_owned()),
                ),
                _ => Ok(ProgramSetup { step: SetupStep::Ready, vertex_position: kept }),
            },
            SetupStep::Ready => Ok(self),
        }
    }
}

/// Every step that succeeds takes the setup exactly one step closer to a
/// program that can draw, and only a setup with no step left is ready: no
/// step can be skipped.
pub proof fn lemma_no_step_skipped(step: SetupStep)
    ensures
        step != SetupStep::Ready ==> steps_left(following(step)) + 1 == steps_left(step),
        steps_left(step) == 0 <==> step == SetupStep::Ready,
{
}

/// A step fails exactly on the answers that report a failure: an object
/// that the context could not create, a status other than true, a negative
/// attribute location, a uniform that was not found.
pub proof fn lemma_failure_exact(step: SetupStep, reply: Reply)
    requires
        answers(step, reply),
    ensures
        failure_of(step, reply) is Some <==> {
            ||| reply is Unavailable
            ||| reply matches Reply::Status { ok, .. } && ok != Some(true)
            ||| reply matches Reply::Attribute(at) && at < 0
            ||| reply == Reply::Uniform(false)
        },
        failure_of(step, reply) matches Some(Failure::LocationNotFound(symbol)) ==> step
            == SetupStep::Locate(symbol),
{
}

/// Judges the context's answer to the compilation of a shader stage: the
/// stage is compiled exactly when the context reports the status true.
pub fn compile_shader(reply: Reply) -> (result: Result<(), SetupError>)
    requires
        reply is Unavailable || reply is Status,
    ensures
        match result {
            Ok(()) => failure_of(SetupStep::CompileVertex, reply) is None,
            Err(error) => failure_of(SetupStep::CompileVertex, reply) == Some(error@),
        },
{
    match reply {
        Reply::Status { ok: Some(true), log: _ } => Ok(()),
        Reply::Status { ok: _, log: Some(text) } => Err(SetupError::ShaderCompile(text)),
        Reply::Status { ok: _, log: None } => Err(
            SetupError::ShaderCompile("Unknown error creating shader".to_owned()),
        ),
        _ => Err(SetupError::ShaderCompile("Unable to create shader object".to_owned())),
    }
}

/// Judges the context's answer to the linking of the program: it is linked
/// exactly when the context reports the status true.
pub fn link_program(reply: Reply) -> (result: Result<(), SetupError>)
    requires
        reply is Unavailable || reply is Status,
    ensures
        match result {
            Ok(()) => failure_of(SetupStep::Link, reply) is None,
            Err(error) => failure_of(SetupStep::Link, reply) == Some(error@),
        },
{
    match reply {
        Reply::Status { ok: Some(true), log: _ } => Ok(()),
        Reply::Status { ok: _, log: Some(text) } => Err(SetupError::ProgramLink(text)),
        Reply::Status { ok: _, log: None } => Err(
            SetupError::ProgramLink("Unknown error creating program object".to_owned()),
        ),
        _ => Err(SetupError::ProgramLink("Unable to create shader object".to_owned())),
    }
}

impl SquareProgram {
    /// Location of the attribute that receives the vertex position.
    pub closed spec fn position(&self) -> u32 {
        self.vertex_position
    }

    /// The program of a setup that has taken all its steps, with the
    /// location that the setup found; none of a setup that has steps left.
    pub fn new(setup: &ProgramSetup) -> (program: Option<SquareProgram>)
        ensures
            program is Some <==> setup.due() == SetupStep::Ready,
            program matches Some(made) ==> made.position() == setup.located(),
    {
        match setup.step {
            SetupStep::Ready => Some(SquareProgram { vertex_position: setup.vertex_position }),
            _ => None,
        }
    }

    /// Location of the attribute that receives the vertex position.
    pub fn vertex_position(&self) -> (index: u32)
        ensures
            index == self.position(),
    {
        self.vertex_position
    }

    /// The calls that draw one quad with this program, in their order.
    pub fn run(&self) -> (steps: Vec<DrawStep>)
        ensures
            steps@ == draw_steps(self.position()),
    {
        let index: u32 = self.vertex_position;
        let steps: Vec<DrawStep> = vec![
            DrawStep::UseProgram,
            DrawStep::SetProjection,
            DrawStep::SetModelView,
            DrawStep::SetColor,
            DrawStep::BindQuad,
            DrawStep::PointAttribute {
            index: 0,
            components: 3,
            normalized: false,
            stride: 0,
            offset: 0,
        },
            DrawStep::EnableAttribute { index },
            DrawStep::DrawTriangles { first: 0, count: 6 },
            DrawStep::CheckError,
            DrawStep::ReleaseProgram,
        ];
        assert(steps@ =~= draw_steps(self.vertex_position));
        steps
    }
}

} // verus!
