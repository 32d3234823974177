use hello_webgl_wasm::program::{FRAGMENT_SOURCE, VERTEX_SOURCE};
use hello_webgl_wasm::{setup_shaders, Command, GlError, ProgramPhase, ProgramTask, Reply};
use hello_webgl_wasm::{ShaderPhase, ShaderStage, ShaderTask};

fn answer_program(task: ProgramTask, replies: Vec<Reply>) -> (ProgramTask, Vec<Command>) {
    let mut task = task;
    let mut made = Vec::new();
    for reply in replies {
        made.push(task.request().unwrap());
        task = setup_shaders(task, reply).0;
    }
    (task, made)
}

fn compiled() -> Vec<Reply> {
    vec![Reply::Presence(true), Reply::Done, Reply::Done, Reply::Flag(Some(true))]
}

#[test]
fn shader_sources_are_the_fixed_texts() {
    assert_eq!(
        VERTEX_SOURCE,
        "\n        attribute vec3 coordinates;\n        void main(void) {\n            gl_Position = vec4(coordinates, 1.0);\n        }\n        "
    );
    assert_eq!(
        FRAGMENT_SOURCE,
        "\n        precision mediump float;\n        uniform vec4 fragColor;\n        void main(void) {\n            gl_FragColor = fragColor;\n        }\n        "
    );
}

#[test]
fn program_links_after_both_shaders_compiled() {
    let mut replies = compiled();
    replies.extend(compiled());
    replies.extend(vec![
        Reply::Presence(true),
        Reply::Done,
        Reply::Done,
        Reply::Done,
        Reply::Flag(Some(true)),
        Reply::Done,
    ]);
    let (task, made) = answer_program(ProgramTask::new(), replies);
    assert_eq!(
        made,
        vec![
            Command::CreateShader { stage: ShaderStage::Vertex },
            Command::ShaderSource {
                stage: ShaderStage::Vertex,
                source: String::from(VERTEX_SOURCE),
            },
            Command::CompileShader { stage: ShaderStage::Vertex },
            Command::GetShaderParameter { stage: ShaderStage::Vertex, pname: 35713 },
            Command::CreateShader { stage: ShaderStage::Fragment },
            Command::ShaderSource {
                stage: ShaderStage::Fragment,
                source: String::from(FRAGMENT_SOURCE),
            },
            Command::CompileShader { stage: ShaderStage::Fragment },
            Command::GetShaderParameter { stage: ShaderStage::Fragment, pname: 35713 },
            Command::CreateProgram,
            Command::AttachShader { stage: ShaderStage::Vertex },
            Command::AttachShader { stage: ShaderStage::Fragment },
            Command::LinkProgram,
            Command::GetProgramParameter { pname: 35714 },
            Command::UseProgram,
        ]
    );
    assert!(task.is_finished());
    assert_eq!(task.request(), None);
    assert_eq!(task.phase, ProgramPhase::Active);
    assert_eq!(task.into_outcome(), Some(Ok(())));
}

#[test]
fn linked_program_becomes_the_current_one() {
    let task = ProgramTask { phase: ProgramPhase::Status };
    let (task, command) = setup_shaders(task, Reply::Flag(Some(true)));
    assert_eq!(command, Some(Command::UseProgram));
    assert!(!task.is_finished());
    let (task, command) = setup_shaders(task, Reply::Done);
    assert_eq!(command, None);
    assert_eq!(task.phase, ProgramPhase::Active);
}

#[test]
fn link_failure_carries_the_linker_log() {
    let task = ProgramTask { phase: ProgramPhase::Status };
    let (task, command) = setup_shaders(task, Reply::Flag(Some(false)));
    assert_eq!(command, Some(Command::GetProgramInfoLog));
    let (task, command) =
        setup_shaders(task, Reply::Log(Some(String::from("varying not written"))));
    assert_eq!(command, None);
    assert_eq!(
        task.into_outcome(),
        Some(Err(GlError::ProgramLink(String::from("varying not written"))))
    );
}

#[test]
fn link_failure_without_a_log_has_the_fallback_text() {
    let task = ProgramTask { phase: ProgramPhase::Log };
    let (task, _) = setup_shaders(task, Reply::Log(None));
    assert_eq!(
        task.into_outcome(),
        Some(Err(GlError::ProgramLink(String::from("Unknown error linking program"))))
    );
    let task = ProgramTask { phase: ProgramPhase::Log };
    let (task, _) = setup_shaders(task, Reply::Log(Some(String::new())));
    assert_eq!(
        task.into_outcome(),
        Some(Err(GlError::ProgramLink(String::from("Unknown error linking program"))))
    );
}

#[test]
fn link_flag_that_is_no_boolean_counts_as_failure() {
    let task = ProgramTask { phase: ProgramPhase::Status };
    let (task, command) = setup_shaders(task, Reply::Flag(None));
    assert_eq!(task.phase, ProgramPhase::Log);
    assert_eq!(command, Some(Command::GetProgramInfoLog));
}

#[test]
fn program_that_is_not_created_fails() {
    let task = ProgramTask { phase: ProgramPhase::Create };
    let (task, command) = setup_shaders(task, Reply::Presence(false));
    assert_eq!(command, None);
    assert_eq!(task.into_outcome(), Some(Err(GlError::ProgramCreation)));
}

#[test]
fn vertex_shader_failure_ends_the_program() {
    let replies = vec![
        Reply::Presence(true),
        Reply::Done,
        Reply::Done,
        Reply::Flag(Some(false)),
        Reply::Log(Some(String::from("bad vertex shader"))),
    ];
    let (task, made) = answer_program(ProgramTask::new(), replies);
    assert_eq!(made.len(), 5);
    assert_eq!(made[4], Command::GetShaderInfoLog { stage: ShaderStage::Vertex });
    assert_eq!(task.request(), None);
    assert_eq!(
        task.into_outcome(),
        Some(Err(GlError::ShaderCompile(String::from("bad vertex shader"))))
    );
}

#[test]
fn fragment_shader_failure_ends_the_program() {
    let mut replies = compiled();
    replies.push(Reply::Presence(false));
    let (task, made) = answer_program(ProgramTask::new(), replies);
    assert_eq!(made[4], Command::CreateShader { stage: ShaderStage::Fragment });
    assert_eq!(task.request(), None);
    assert_eq!(task.into_outcome(), Some(Err(GlError::ShaderCreation)));
}

#[test]
fn fragment_shader_starts_when_the_vertex_shader_compiled() {
    let task = ProgramTask {
        phase: ProgramPhase::Vertex(ShaderTask {
            stage: ShaderStage::Vertex,
            source: String::from(VERTEX_SOURCE),
            phase: ShaderPhase::Status,
        }),
    };
    let (task, command) = setup_shaders(task, Reply::Flag(Some(true)));
    assert_eq!(command, Some(Command::CreateShader { stage: ShaderStage::Fragment }));
    assert_eq!(
        task.phase,
        ProgramPhase::Fragment(ShaderTask::new(ShaderStage::Fragment, FRAGMENT_SOURCE))
    );
}

#[test]
fn program_task_ignores_a_reply_of_another_kind() {
    let task = ProgramTask { phase: ProgramPhase::Link };
    let (task, command) = setup_shaders(task, Reply::Flag(Some(true)));
    assert_eq!(task.phase, ProgramPhase::Link);
    assert_eq!(command, Some(Command::LinkProgram));
    let (task, command) = setup_shaders(ProgramTask::new(), Reply::Done);
    assert_eq!(task, ProgramTask::new());
    assert_eq!(command, Some(Command::CreateShader { stage: ShaderStage::Vertex }));
}

#[test]
fn finished_program_task_stays_finished() {
    let task = ProgramTask { phase: ProgramPhase::Active };
    let (task, command) = setup_shaders(task, Reply::Done);
    assert_eq!(command, None);
    assert_eq!(task.phase, ProgramPhase::Active);
    let task = ProgramTask { phase: ProgramPhase::Failed(GlError::ProgramCreation) };
    let (task, command) = setup_shaders(task, Reply::Presence(true));
    assert_eq!(command, None);
    assert_eq!(task.phase, ProgramPhase::Failed(GlError::ProgramCreation));
}
