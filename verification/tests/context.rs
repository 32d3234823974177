use hello_webgl_wasm::{init_webgl_context, Command, ContextPhase, ContextTask, GlError, Reply};

#[test]
fn context_task_starts_with_the_canvas_lookup() {
    let task = ContextTask::new("canvas");
    assert_eq!(task.phase, ContextPhase::Canvas);
    assert_eq!(task.request(), Some(Command::GetCanvas { id: String::from("canvas") }));
    assert!(!task.is_finished());
    assert_eq!(task.viewport(), None);
}

#[test]
fn viewport_is_set_to_the_canvas_size() {
    let task = ContextTask::new("canvas");
    let (task, command) = init_webgl_context(task, Reply::Presence(true));
    assert_eq!(command, Some(Command::GetContext { kind: String::from("webgl") }));
    let (task, command) = init_webgl_context(task, Reply::Presence(true));
    assert_eq!(command, Some(Command::GetCanvasSize));
    let (task, command) = init_webgl_context(task, Reply::Size { width: 640, height: 480 });
    assert_eq!(command, Some(Command::Viewport { x: 0, y: 0, width: 640, height: 480 }));
    let (task, command) = init_webgl_context(task, Reply::Done);
    assert_eq!(command, None);
    assert!(task.is_finished());
    assert_eq!(task.viewport(), Some((640, 480)));
    assert_eq!(task.into_outcome(), Some(Ok(())));
}

#[test]
fn viewport_takes_an_empty_and_a_largest_canvas() {
    let task = ContextTask { canvas_id: String::from("c"), phase: ContextPhase::Size };
    let (_, command) = init_webgl_context(task, Reply::Size { width: 0, height: 0 });
    assert_eq!(command, Some(Command::Viewport { x: 0, y: 0, width: 0, height: 0 }));
    let task = ContextTask { canvas_id: String::from("c"), phase: ContextPhase::Size };
    let (_, command) =
        init_webgl_context(task, Reply::Size { width: 2147483647, height: 1 });
    assert_eq!(command, Some(Command::Viewport { x: 0, y: 0, width: 2147483647, height: 1 }));
}

#[test]
fn missing_canvas_is_not_found() {
    let task = ContextTask::new("nowhere");
    let (task, command) = init_webgl_context(task, Reply::Presence(false));
    assert_eq!(command, None);
    assert!(task.is_finished());
    assert_eq!(task.phase, ContextPhase::Failed(GlError::NotFound));
    assert_eq!(task.into_outcome(), Some(Err(GlError::NotFound)));
}

#[test]
fn missing_context_is_unavailable() {
    let task = ContextTask::new("canvas");
    let (task, _) = init_webgl_context(task, Reply::Presence(true));
    let (task, command) = init_webgl_context(task, Reply::Presence(false));
    assert_eq!(command, None);
    assert_eq!(task.into_outcome(), Some(Err(GlError::ContextUnavailable)));
}

#[test]
fn context_task_ignores_a_reply_of_another_kind() {
    let task = ContextTask::new("canvas");
    let (task, command) = init_webgl_context(task, Reply::Done);
    assert_eq!(task.phase, ContextPhase::Canvas);
    assert_eq!(command, Some(Command::GetCanvas { id: String::from("canvas") }));
    let (task, command) = init_webgl_context(task, Reply::Location(3));
    assert_eq!(task.phase, ContextPhase::Canvas);
    assert_eq!(command, Some(Command::GetCanvas { id: String::from("canvas") }));
}

#[test]
fn finished_context_task_stays_finished() {
    let task = ContextTask {
        canvas_id: String::from("canvas"),
        phase: ContextPhase::Ready { width: 3, height: 4 },
    };
    let (task, command) = init_webgl_context(task, Reply::Presence(false));
    assert_eq!(command, None);
    assert_eq!(task.phase, ContextPhase::Ready { width: 3, height: 4 });
    let task = ContextTask {
        canvas_id: String::from("canvas"),
        phase: ContextPhase::Failed(GlError::NotFound),
    };
    let (task, command) = init_webgl_context(task, Reply::Presence(true));
    assert_eq!(command, None);
    assert_eq!(task.phase, ContextPhase::Failed(GlError::NotFound));
}

#[test]
fn size_fits_the_viewport_up_to_the_signed_maximum() {
    assert!(Reply::Size { width: 0, height: 0 }.fits_viewport());
    assert!(Reply::Size { width: 2147483647, height: 2147483647 }.fits_viewport());
    assert!(!Reply::Size { width: 2147483648, height: 1 }.fits_viewport());
    assert!(!Reply::Size { width: 1, height: 4294967295 }.fits_viewport());
    assert!(Reply::Done.fits_viewport());
    assert!(Reply::Location(-1).fits_viewport());
}
