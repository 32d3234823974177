use hello_webgl_wasm::vertices::attribute_index;
use hello_webgl_wasm::{setup_vertices, Command, Reply, VertexPhase, VertexTask};

#[test]
fn vertices_are_handed_over_in_seven_calls() {
    let data: Vec<u32> = vec![0.5f32, 0.0, 0.0, 0.0, 0.5, 0.0].iter().map(|x| x.to_bits()).collect();
    let mut task = VertexTask::new(data.clone());
    let replies = vec![
        Reply::Done,
        Reply::Done,
        Reply::Done,
        Reply::Location(1),
        Reply::Done,
        Reply::Done,
        Reply::Done,
    ];
    let mut made = Vec::new();
    for reply in replies {
        made.push(task.request().unwrap());
        task = setup_vertices(task, reply).0;
    }
    assert_eq!(
        made,
        vec![
            Command::CreateBuffer,
            Command::BindBuffer { target: 34962 },
            Command::BufferData { target: 34962, data: data, usage: 35044 },
            Command::GetAttribLocation { name: String::from("coordinates") },
            Command::BindBuffer { target: 34962 },
            Command::VertexAttribPointer {
                index: 1,
                size: 3,
                component: 5126,
                normalized: false,
                stride: 0,
                offset: 0,
            },
            Command::EnableVertexAttribArray { index: 1 },
        ]
    );
    assert!(task.is_finished());
    assert_eq!(task.request(), None);
    assert_eq!(task.phase, VertexPhase::Done);
    assert_eq!(task.into_outcome(), Some(Ok(())));
}

#[test]
fn attribute_index_wraps_a_negative_location() {
    assert_eq!(attribute_index(0), 0);
    assert_eq!(attribute_index(7), 7);
    assert_eq!(attribute_index(2147483647), 2147483647);
    assert_eq!(attribute_index(-1), 4294967295);
    assert_eq!(attribute_index(-2), 4294967294);
    assert_eq!(attribute_index(-2147483648), 2147483648);
    assert_eq!(attribute_index(-1), -1i32 as u32);
}

#[test]
fn unknown_attribute_is_used_as_the_highest_index() {
    let task = VertexTask { vertices: vec![], phase: VertexPhase::Locate };
    let (task, command) = setup_vertices(task, Reply::Location(-1));
    assert_eq!(command, Some(Command::BindBuffer { target: 34962 }));
    let (task, command) = setup_vertices(task, Reply::Done);
    assert_eq!(
        command,
        Some(Command::VertexAttribPointer {
            index: 4294967295,
            size: 3,
            component: 5126,
            normalized: false,
            stride: 0,
            offset: 0,
        })
    );
    let (_, command) = setup_vertices(task, Reply::Done);
    assert_eq!(command, Some(Command::EnableVertexAttribArray { index: 4294967295 }));
}

#[test]
fn vertex_task_ignores_a_reply_of_another_kind() {
    let task = VertexTask::new(vec![1, 2, 3]);
    let (task, command) = setup_vertices(task, Reply::Presence(true));
    assert_eq!(task.phase, VertexPhase::Create);
    assert_eq!(command, Some(Command::CreateBuffer));
    let task = VertexTask { vertices: vec![1, 2, 3], phase: VertexPhase::Locate };
    let (task, command) = setup_vertices(task, Reply::Done);
    assert_eq!(task.phase, VertexPhase::Locate);
    assert_eq!(command, Some(Command::GetAttribLocation { name: String::from("coordinates") }));
}

#[test]
fn finished_vertex_task_stays_finished() {
    let task = VertexTask { vertices: vec![1, 2, 3], phase: VertexPhase::Done };
    let (task, command) = setup_vertices(task, Reply::Done);
    assert_eq!(command, None);
    assert_eq!(task.phase, VertexPhase::Done);
    assert_eq!(task.vertices, vec![1, 2, 3]);
}

#[test]
fn unfinished_vertex_task_has_no_outcome() {
    let task = VertexTask::new(vec![]);
    assert!(!task.is_finished());
    assert_eq!(task.into_outcome(), None);
}

#[test]
fn vertices_are_uploaded_as_given_whatever_their_number() {
    let task = VertexTask { vertices: vec![9, 8, 7, 6], phase: VertexPhase::Upload };
    assert_eq!(
        task.request(),
        Some(Command::BufferData { target: 34962, data: vec![9, 8, 7, 6], usage: 35044 })
    );
    let task = VertexTask { vertices: vec![], phase: VertexPhase::Upload };
    assert_eq!(
        task.request(),
        Some(Command::BufferData { target: 34962, data: vec![], usage: 35044 })
    );
}
