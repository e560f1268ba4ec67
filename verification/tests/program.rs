use tile_runner::program::{
    compile_shader, link_program, quad_vertices, DrawStep, ProgramSetup, Reply, SetupError,
    SetupStep, SquareProgram, Symbol,
};

fn good() -> Reply {
    Reply::Status { ok: Some(true), log: None }
}

fn complete(at: i32) -> SquareProgram {
    let mut setup = linked().next(Reply::Attribute(at)).unwrap();
    for _ in 0..3 {
        setup = setup.next(Reply::Uniform(true)).unwrap();
    }
    setup = setup.next(Reply::Stored).unwrap();
    SquareProgram::new(&setup).unwrap()
}

fn failure(result: Result<ProgramSetup, SetupError>) -> SetupError {
    match result {
        Ok(setup) => panic!("the setup went on to {:?}", setup.pending()),
        Err(error) => error,
    }
}

fn linked() -> ProgramSetup {
    let setup = ProgramSetup::new();
    let setup = setup.next(good()).unwrap();
    let setup = setup.next(good()).unwrap();
    setup.next(good()).unwrap()
}

#[test]
fn setup_takes_its_steps_in_order() {
    let mut setup = ProgramSetup::new();
    let replies = vec![
        good(),
        good(),
        good(),
        Reply::Attribute(3),
        Reply::Uniform(true),
        Reply::Uniform(true),
        Reply::Uniform(true),
        Reply::Stored,
    ];
    let steps = vec![
        SetupStep::CompileVertex,
        SetupStep::CompileFragment,
        SetupStep::Link,
        SetupStep::Locate(Symbol::VertexPosition),
        SetupStep::Locate(Symbol::VertexColor),
        SetupStep::Locate(Symbol::ModelViewMatrix),
        SetupStep::Locate(Symbol::ProjectionMatrix),
        SetupStep::UploadQuad,
    ];
    for (reply, step) in replies.into_iter().zip(steps) {
        assert_eq!(setup.pending(), step);
        assert!(SquareProgram::new(&setup).is_none());
        assert!(setup.accepts(&reply));
        setup = setup.next(reply).unwrap();
    }
    assert_eq!(setup.pending(), SetupStep::Ready);
    let program = SquareProgram::new(&setup).unwrap();
    assert_eq!(program.vertex_position(), 3);
}

#[test]
fn missing_attribute_is_location_not_found() {
    assert_eq!(
        failure(linked().next(Reply::Attribute(-1))),
        SetupError::LocationNotFound(Symbol::VertexPosition)
    );
    assert_eq!(
        failure(linked().next(Reply::Attribute(i32::MIN))),
        SetupError::LocationNotFound(Symbol::VertexPosition)
    );
    assert_eq!(Symbol::VertexPosition.name(), "aVertexPosition");
}

#[test]
fn attribute_at_zero_is_found() {
    let setup = linked().next(Reply::Attribute(0)).unwrap();
    assert_eq!(setup.pending(), SetupStep::Locate(Symbol::VertexColor));
    assert_eq!(complete(0).vertex_position(), 0);
    assert_eq!(complete(i32::MAX).vertex_position(), 2_147_483_647);
}

#[test]
fn missing_uniform_is_location_not_found() {
    let located = || linked().next(Reply::Attribute(0)).unwrap();
    assert_eq!(
        failure(located().next(Reply::Uniform(false))),
        SetupError::LocationNotFound(Symbol::VertexColor)
    );
    let colored = || located().next(Reply::Uniform(true)).unwrap();
    assert_eq!(
        failure(colored().next(Reply::Uniform(false))),
        SetupError::LocationNotFound(Symbol::ModelViewMatrix)
    );
    let viewed = colored().next(Reply::Uniform(true)).unwrap();
    assert_eq!(
        failure(viewed.next(Reply::Uniform(false))),
        SetupError::LocationNotFound(Symbol::ProjectionMatrix)
    );
    assert_eq!(Symbol::VertexColor.name(), "uVertexColor");
    assert_eq!(Symbol::ModelViewMatrix.name(), "uModelViewMatrix");
    assert_eq!(Symbol::ProjectionMatrix.name(), "uProjectionMatrix");
}

#[test]
fn compile_failure_carries_the_log() {
    let failed =
        || Reply::Status { ok: Some(false), log: Some(String::from("0:1: syntax error")) };
    assert_eq!(
        failure(ProgramSetup::new().next(failed())),
        SetupError::ShaderCompile(String::from("0:1: syntax error"))
    );
    let second = ProgramSetup::new().next(good()).unwrap();
    assert_eq!(
        failure(second.next(failed())),
        SetupError::ShaderCompile(String::from("0:1: syntax error"))
    );
}

#[test]
fn compile_failure_without_log_or_status() {
    assert_eq!(
        compile_shader(Reply::Status { ok: Some(false), log: None }),
        Err(SetupError::ShaderCompile(String::from("Unknown error creating shader")))
    );
    assert_eq!(
        compile_shader(Reply::Status { ok: None, log: None }),
        Err(SetupError::ShaderCompile(String::from("Unknown error creating shader")))
    );
    assert_eq!(
        compile_shader(Reply::Status { ok: None, log: Some(String::from("lost")) }),
        Err(SetupError::ShaderCompile(String::from("lost")))
    );
    assert_eq!(
        compile_shader(Reply::Unavailable),
        Err(SetupError::ShaderCompile(String::from("Unable to create shader object")))
    );
    assert_eq!(compile_shader(Reply::Status { ok: Some(true), log: Some(String::from("warning")) }), Ok(()));
}

#[test]
fn link_failure_is_program_link() {
    let setup = ProgramSetup::new().next(good()).unwrap().next(good()).unwrap();
    assert_eq!(
        failure(setup.next(Reply::Status {
            ok: Some(false),
            log: Some(String::from("varying mismatch"))
        })),
        SetupError::ProgramLink(String::from("varying mismatch"))
    );
    assert_eq!(
        link_program(Reply::Status { ok: Some(false), log: None }),
        Err(SetupError::ProgramLink(String::from("Unknown error creating program object")))
    );
    assert_eq!(
        link_program(Reply::Unavailable),
        Err(SetupError::ProgramLink(String::from("Unable to create shader object")))
    );
    assert_eq!(link_program(good()), Ok(()));
}

#[test]
fn buffer_failure_is_surface_setup() {
    let mut setup = linked().next(Reply::Attribute(1)).unwrap();
    for _ in 0..3 {
        setup = setup.next(Reply::Uniform(true)).unwrap();
    }
    assert_eq!(setup.pending(), SetupStep::UploadQuad);
    assert_eq!(
        failure(setup.next(Reply::Unavailable)),
        SetupError::SurfaceSetup(String::from("failed to create buffer"))
    );
}

#[test]
fn replies_that_do_not_answer_the_step_are_not_accepted() {
    let setup = ProgramSetup::new();
    assert!(setup.accepts(&Reply::Unavailable));
    assert!(!setup.accepts(&Reply::Attribute(0)));
    assert!(!setup.accepts(&Reply::Uniform(true)));
    assert!(!setup.accepts(&Reply::Stored));
    let setup = linked();
    assert!(setup.accepts(&Reply::Attribute(-1)));
    assert!(!setup.accepts(&Reply::Uniform(true)));
    assert!(!setup.accepts(&good()));
    let setup = setup.next(Reply::Attribute(0)).unwrap();
    assert!(setup.accepts(&Reply::Uniform(false)));
    assert!(!setup.accepts(&Reply::Attribute(0)));
    let mut upload = setup;
    for _ in 0..3 {
        upload = upload.next(Reply::Uniform(true)).unwrap();
    }
    assert!(upload.accepts(&Reply::Stored));
    assert!(upload.accepts(&Reply::Unavailable));
    assert!(!upload.accepts(&good()));
    let ready = upload.next(Reply::Stored).unwrap();
    assert!(!ready.accepts(&Reply::Stored));
    assert!(!ready.accepts(&Reply::Unavailable));
}

#[test]
fn quad_is_two_triangles() {
    assert_eq!(
        quad_vertices(),
        vec![-1, -1, 0, 1, -1, 0, 1, 1, 0, -1, -1, 0, 1, 1, 0, -1, 1, 0]
    );
}

#[test]
fn draw_calls_come_in_their_order() {
    let program = complete(2);
    assert_eq!(
        program.run(),
        vec![
            DrawStep::UseProgram,
            DrawStep::SetProjection,
            DrawStep::SetModelView,
            DrawStep::SetColor,
            DrawStep::BindQuad,
            DrawStep::PointAttribute {
                index: 0,
                components: 3,
                normalized: false,
                stride: 0,
                offset: 0
            },
            DrawStep::EnableAttribute { index: 2 },
            DrawStep::DrawTriangles { first: 0, count: 6 },
            DrawStep::CheckError,
            DrawStep::ReleaseProgram,
        ]
    );
}
