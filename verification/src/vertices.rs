//! Handing vertices to the program: create a buffer, bind it, fill it,
//! find the position attribute, and point the attribute at the buffer.

use vstd::prelude::*;
use crate::codes::{webgl_array_buffer, webgl_float, webgl_static_draw};
use crate::codes::{ARRAY_BUFFER, FLOAT, STATIC_DRAW};
use crate::command::{answers, pending_view, Command, CommandView, Reply, ReplyView};
use crate::error::{outcome_view, GlError, GlErrorView};
use crate::scalar::copy_values;

verus! {

/// The name of the attribute that takes the positions.
pub open spec fn position_attribute() -> Seq<char> {
    "coordinates"@
}

/// The attribute index that a location stands for: the location itself,
/// or, for a negative one, its two's complement on 32 bits. A name that
/// the program does not have is reported as -1 and so stands for the
/// highest index there is.
pub open spec fn attribute_index_of(location: int) -> int {
    if location >= 0 {
        location
    } else {
        location + 0x1_0000_0000
    }
}

/// The attribute index that `location` stands for.
pub fn attribute_index(location: i32) -> (index: u32)
    ensures
        index == attribute_index_of(location as int),
{
    if location >= 0 {
        location as u32
    } else {
        let below: u32 = (-(location + 1)) as u32;
        0xFFFF_FFFF - below
    }
}

/// Where the upload of the vertices stands.
#[derive(Clone, Copy, Debug, PartialEq, Eq, Structural)]
pub enum VertexPhase {
    /// The buffer is being created.
    Create,
    /// The buffer is being bound.
    Bind,
    /// The buffer is being filled.
    Upload,
    /// The position attribute is being looked up.
    Locate,
    /// The buffer is being bound again, for the attribute found here.
    Rebind { location: i32 },
    /// The attribute is being pointed at the buffer.
    Pointer { location: i32 },
    /// The attribute array is being switched on.
    Enable { location: i32 },
    /// The vertices are in place.
    Done,
}

/// The upload of a flat list of coordinates, three to a vertex.
#[derive(Clone, Debug, PartialEq, Eq)]
pub struct VertexTask {
    pub vertices: Vec<u32>,
    pub phase: VertexPhase,
}

/// The model of a [`VertexTask`].
pub struct VertexTaskView {
    pub vertices: Seq<u32>,
    pub phase: VertexPhase,
}

impl View for VertexTask {
    type V = VertexTaskView;

    open spec fn view(&self) -> VertexTaskView {
        VertexTaskView { vertices: self.vertices@, phase: self.phase }
    }
}

impl VertexPhase {
    /// How many calls have been answered when the task is in this phase.
    pub open spec fn position(self) -> nat {
        match self {
            VertexPhase::Create => 0,
            VertexPhase::Bind => 1,
            VertexPhase::Upload => 2,
            VertexPhase::Locate => 3,
            VertexPhase::Rebind { .. } => 4,
            VertexPhase::Pointer { .. } => 5,
            VertexPhase::Enable { .. } => 6,
            VertexPhase::Done => 7,
        }
    }
}

impl VertexTaskView {
    /// The task before anything was asked of the host.
    pub open spec fn start(vertices: Seq<u32>) -> VertexTaskView {
        VertexTaskView { vertices, phase: VertexPhase::Create }
    }

    /// The call that the task waits on, or `None` once it has ended.
    pub open spec fn request(self) -> Option<CommandView> {
        match self.phase {
            VertexPhase::Create => Some(CommandView::CreateBuffer),
            VertexPhase::Bind => Some(CommandView::BindBuffer { target: ARRAY_BUFFER }),
            VertexPhase::Upload => Some(
                CommandView::BufferData {
                    target: ARRAY_BUFFER,
                    data: self.vertices,
                    usage: STATIC_DRAW,
                },
            ),
            VertexPhase::Locate => Some(
                CommandView::GetAttribLocation { name: position_attribute() },
            ),
            VertexPhase::Rebind { .. } => Some(CommandView::BindBuffer { target: ARRAY_BUFFER }),
            VertexPhase::Pointer { location } => Some(
                CommandView::VertexAttribPointer {
                    index: attribute_index_of(location as int) as u32,
                    size: 3,
                    component: FLOAT,
                    normalized: false,
                    stride: 0,
                    offset: 0,
                },
            ),
            VertexPhase::Enable { location } => Some(
                CommandView::EnableVertexAttribArray {
                    index: attribute_index_of(location as int) as u32,
                },
            ),
            VertexPhase::Done => None,
        }
    }

    /// Whether `reply` is of the kind that answers the pending call.
    pub open spec fn accepts(self, reply: ReplyView) -> bool {
        answers(self.request(), reply)
    }

    /// The phase that follows when `reply` answers the pending call. A reply
    /// of another kind changes nothing: the call stays pending.
    pub open spec fn next_phase(self, reply: ReplyView) -> VertexPhase {
        if !self.accepts(reply) {
            self.phase
        } else {
            match self.phase {
                VertexPhase::Create => VertexPhase::Bind,
                VertexPhase::Bind => VertexPhase::Upload,
                VertexPhase::Upload => VertexPhase::Locate,
                VertexPhase::Locate => VertexPhase::Rebind { location: reply->Location_0 },
                VertexPhase::Rebind { location } => VertexPhase::Pointer { location },
                VertexPhase::Pointer { location } => VertexPhase::Enable { location },
                VertexPhase::Enable { .. } => VertexPhase::Done,
                VertexPhase::Done => VertexPhase::Done,
            }
        }
    }

    /// The task after the host answered with `reply`.
    pub open spec fn advance(self, reply: ReplyView) -> VertexTaskView {
        VertexTaskView { phase: self.next_phase(reply), ..self }
    }

    /// How the task ended, or `None` while a call is pending. Nothing here
    /// can fail.
    pub open spec fn outcome(self) -> Option<Result<(), GlErrorView>> {
        match self.phase {
            VertexPhase::Done => Some(Ok(())),
            _ => None,
        }
    }

    /// The task after the host gave `replies`, one after the other.
    pub open spec fn run(self, replies: Seq<ReplyView>) -> VertexTaskView
        decreases replies.len(),
    {
        if replies.len() == 0 {
            self
        } else {
            self.run(replies.drop_last()).advance(replies.last())
        }
    }
}

impl VertexTask {
    /// A task that will upload `vertices`.
    pub fn new(vertices: Vec<u32>) -> (task: VertexTask)
        ensures
            task@ == VertexTaskView::start(vertices@),
    {
        VertexTask { vertices, phase: VertexPhase::Create }
    }

    /// The call for the host to make now, or `None` once the task has ended.
    pub fn request(&self) -> (command: Option<Command>)
        ensures
            pending_view(command) == self@.request(),
    {
        match self.phase {
            VertexPhase::Create => Some(Command::CreateBuffer),
            VertexPhase::Bind => Some(Command::BindBuffer { target: webgl_array_buffer() }),
            VertexPhase::Upload => Some(
                Command::BufferData {
                    target: webgl_array_buffer(),
                    data: copy_values(&self.vertices),
                    usage: webgl_static_draw(),
                },
            ),
            VertexPhase::Locate => Some(
                Command::GetAttribLocation { name: "coordinates".to_owned() },
            ),
            VertexPhase::Rebind { .. } => Some(
                Command::BindBuffer { target: webgl_array_buffer() },
            ),
            VertexPhase::Pointer { location } => Some(
                Command::VertexAttribPointer {
                    index: attribute_index(location),
                    size: 3,
                    component: webgl_float(),
                    normalized: false,
                    stride: 0,
                    offset: 0,
                },
            ),
            VertexPhase::Enable { location } => Some(
                Command::EnableVertexAttribArray { index: attribute_index(location) },
            ),
            VertexPhase::Done => None,
        }
    }

    /// Whether the task has ended.
    pub fn is_finished(&self) -> (finished: bool)
        ensures
            finished == self@.outcome().is_some(),
            finished == self@.request().is_none(),
    {
        match self.phase {
            VertexPhase::Done => true,
            _ => false,
        }
    }

    /// How the task ended, or `None` while a call is pending.
    pub fn into_outcome(self) -> (end: Option<Result<(), GlError>>)
        ensures
            outcome_view(end) == self@.outcome(),
    {
        match self.phase {
            VertexPhase::Done => Some(Ok(())),
            _ => None,
        }
    }
}

/// Takes the host's answer to the call that `task` waits on and moves the
/// task on. The calls come in one fixed order: create the buffer, bind it
/// as the array buffer, fill it with the vertices for drawing many times
/// from data written once, find the position attribute, bind the buffer
/// again, describe the attribute as three tightly packed numbers to a
/// vertex, not normalized, and switch the attribute array on. Returns the
/// task as it now stands and the call to make next.
pub fn setup_vertices(task: VertexTask, reply: Reply) -> (next: (VertexTask, Option<Command>))
    ensures
        next.0@ == task@.advance(reply@),
        pending_view(next.1) == next.0@.request(),
{
    let VertexTask { vertices, phase } = task;
    let phase = match phase {
        VertexPhase::Create => match reply {
            Reply::Done => VertexPhase::Bind,
            _ => VertexPhase::Create,
        },
        VertexPhase::Bind => match reply {
            Reply::Done => VertexPhase::Upload,
            _ => VertexPhase::Bind,
        },
        VertexPhase::Upload => match reply {
            Reply::Done => VertexPhase::Locate,
            _ => VertexPhase::Upload,
        },
        VertexPhase::Locate => match reply {
            Reply::Location(location) => VertexPhase::Rebind { location },
            _ => VertexPhase::Locate,
        },
        VertexPhase::Rebind { location } => match reply {
            Reply::Done => VertexPhase::Pointer { location },
            _ => VertexPhase::Rebind { location },
        },
        VertexPhase::Pointer { location } => match reply {
            Reply::Done => VertexPhase::Enable { location },
            _ => VertexPhase::Pointer { location },
        },
        VertexPhase::Enable { location } => match reply {
            Reply::Done => VertexPhase::Done,
            _ => VertexPhase::Enable { location },
        },
        VertexPhase::Done => VertexPhase::Done,
    };
    let next = VertexTask { vertices, phase };
    let command = next.request();
    (next, command)
}

/// A call is pending exactly while the task has not ended.
pub proof fn lemma_vertex_request_or_outcome(task: VertexTaskView)
    ensures
        task.request().is_some() <==> task.outcome().is_none(),
{
}

/// A task that has ended stays as it is, whatever the host says.
pub proof fn lemma_vertex_end_is_final(task: VertexTaskView, replies: Seq<ReplyView>)
    requires
        task.outcome().is_some(),
    ensures
        task.run(replies) == task,
    decreases replies.len(),
{
    if replies.len() > 0 {
        lemma_vertex_end_is_final(task, replies.drop_last());
    }
}

/// An answer of the right kind moves the task one call further, any other
/// leaves it where it is: no call is skipped and none comes out of turn.
pub proof fn lemma_vertex_one_call_at_a_time(task: VertexTaskView, reply: ReplyView)
    ensures
        task.accepts(reply) ==> task.advance(reply).phase.position() == task.phase.position() + 1,
        !task.accepts(reply) ==> task.advance(reply) == task,
        task.advance(reply).vertices == task.vertices,
{
}

/// The buffer is filled with exactly the vertices that the task was given.
pub proof fn lemma_upload_carries_vertices(task: VertexTaskView)
    requires
        task.phase is Upload,
    ensures
        task.request() == Some(
            CommandView::BufferData {
                target: ARRAY_BUFFER,
                data: task.vertices,
                usage: STATIC_DRAW,
            },
        ),
{
}

} // verus!
