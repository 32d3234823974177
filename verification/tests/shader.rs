use hello_webgl_wasm::{create_shader, Command, GlError, Reply, ShaderPhase, ShaderStage, ShaderTask};

#[test]
fn shader_compiles_in_four_calls() {
    let source = "void main(void) { gl_Position = vec4(0); }";
    let task = ShaderTask::new(ShaderStage::Vertex, source);
    assert_eq!(task.request(), Some(Command::CreateShader { stage: ShaderStage::Vertex }));
    let (task, command) = create_shader(task, Reply::Presence(true));
    assert_eq!(
        command,
        Some(Command::ShaderSource { stage: ShaderStage::Vertex, source: String::from(source) })
    );
    let (task, command) = create_shader(task, Reply::Done);
    assert_eq!(command, Some(Command::CompileShader { stage: ShaderStage::Vertex }));
    let (task, command) = create_shader(task, Reply::Done);
    assert_eq!(
        command,
        Some(Command::GetShaderParameter { stage: ShaderStage::Vertex, pname: 35713 })
    );
    let (task, command) = create_shader(task, Reply::Flag(Some(true)));
    assert_eq!(command, None);
    assert!(task.is_finished());
    assert!(task.is_compiled());
    assert_eq!(task.phase, ShaderPhase::Compiled);
    assert_eq!(task.into_outcome(), Some(Ok(())));
}

#[test]
fn shader_that_is_not_created_fails() {
    let task = ShaderTask::new(ShaderStage::Fragment, "void main() {}");
    let (task, command) = create_shader(task, Reply::Presence(false));
    assert_eq!(command, None);
    assert!(task.is_finished());
    assert!(!task.is_compiled());
    assert_eq!(task.into_outcome(), Some(Err(GlError::ShaderCreation)));
}

#[test]
fn invalid_source_fails_with_the_compiler_log() {
    let task = ShaderTask {
        stage: ShaderStage::Fragment,
        source: String::from("void main() { gl_FragColor = vec4(1) }"),
        phase: ShaderPhase::Status,
    };
    let (task, command) = create_shader(task, Reply::Flag(Some(false)));
    assert_eq!(command, Some(Command::GetShaderInfoLog { stage: ShaderStage::Fragment }));
    assert!(!task.is_finished());
    let log = "ERROR: 0:1: '}' : syntax error";
    let (task, command) = create_shader(task, Reply::Log(Some(String::from(log))));
    assert_eq!(command, None);
    let outcome = task.into_outcome();
    assert_eq!(outcome, Some(Err(GlError::ShaderCompile(String::from(log)))));
    assert!(!outcome.unwrap().unwrap_err().message().is_empty());
}

#[test]
fn compile_failure_without_a_log_has_the_fallback_text() {
    let task = ShaderTask {
        stage: ShaderStage::Vertex,
        source: String::from("x"),
        phase: ShaderPhase::Log,
    };
    let (task, _) = create_shader(task, Reply::Log(None));
    assert_eq!(
        task.into_outcome(),
        Some(Err(GlError::ShaderCompile(String::from("Unknown error creating shader"))))
    );
}

#[test]
fn compile_failure_with_an_empty_log_has_the_fallback_text() {
    let task = ShaderTask {
        stage: ShaderStage::Vertex,
        source: String::from("x"),
        phase: ShaderPhase::Log,
    };
    let (task, _) = create_shader(task, Reply::Log(Some(String::new())));
    assert_eq!(
        task.into_outcome(),
        Some(Err(GlError::ShaderCompile(String::from("Unknown error creating shader"))))
    );
}

#[test]
fn compile_flag_that_is_no_boolean_counts_as_failure() {
    let task = ShaderTask {
        stage: ShaderStage::Vertex,
        source: String::from("x"),
        phase: ShaderPhase::Status,
    };
    let (task, command) = create_shader(task, Reply::Flag(None));
    assert_eq!(task.phase, ShaderPhase::Log);
    assert_eq!(command, Some(Command::GetShaderInfoLog { stage: ShaderStage::Vertex }));
}

#[test]
fn shader_task_ignores_a_reply_of_another_kind() {
    let task = ShaderTask::new(ShaderStage::Vertex, "x");
    let (task, command) = create_shader(task, Reply::Flag(Some(true)));
    assert_eq!(task.phase, ShaderPhase::Create);
    assert_eq!(command, Some(Command::CreateShader { stage: ShaderStage::Vertex }));
    let (task, _) = create_shader(task, Reply::Presence(true));
    let (task, command) = create_shader(task, Reply::Presence(true));
    assert_eq!(task.phase, ShaderPhase::Source);
    assert_eq!(
        command,
        Some(Command::ShaderSource { stage: ShaderStage::Vertex, source: String::from("x") })
    );
}

#[test]
fn finished_shader_task_stays_finished() {
    let task = ShaderTask {
        stage: ShaderStage::Vertex,
        source: String::from("x"),
        phase: ShaderPhase::Compiled,
    };
    let (task, command) = create_shader(task, Reply::Flag(Some(false)));
    assert_eq!(command, None);
    assert_eq!(task.phase, ShaderPhase::Compiled);
    let task = ShaderTask {
        stage: ShaderStage::Vertex,
        source: String::from("x"),
        phase: ShaderPhase::Failed(GlError::ShaderCreation),
    };
    let (task, command) = create_shader(task, Reply::Presence(true));
    assert_eq!(command, None);
    assert_eq!(task.phase, ShaderPhase::Failed(GlError::ShaderCreation));
}

#[test]
fn unfinished_shader_task_has_no_outcome() {
    let task = ShaderTask::new(ShaderStage::Vertex, "x");
    assert!(!task.is_finished());
    assert_eq!(task.into_outcome(), None);
}
