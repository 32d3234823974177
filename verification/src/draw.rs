//! Drawing the triangle: get the context, build the program, hand over the
//! vertices, set the color, and draw.

use vstd::prelude::*;
use crate::codes::{webgl_triangles, ARRAY_BUFFER, STATIC_DRAW, TRIANGLES};
use crate::command::{answers, pending_view, Command, CommandView, Reply, ReplyView};
use crate::context::{init_webgl_context, ContextPhase, ContextTask, ContextTaskView};
use crate::error::{outcome_view, GlError, GlErrorView};
use crate::program::{lemma_program_advance_wf, setup_shaders};
use crate::program::{ProgramPhase, ProgramTask, ProgramTaskView};
use crate::scalar::{chosen_color, copy_values, resolve_color, triangle, triangle_vertices};
use crate::scalar::{vertex_count, vertices_in};
use crate::vertices::{setup_vertices, VertexPhase, VertexTask, VertexTaskView};

verus! {

/// The name of the uniform that takes the color.
pub open spec fn color_uniform() -> Seq<char> {
    "fragColor"@
}

/// Where the drawing stands.
#[derive(Clone, Debug, PartialEq, Eq)]
pub enum DrawPhase {
    /// The context is being acquired.
    Context(ContextTask),
    /// The program is being built.
    Program(ProgramTask),
    /// The vertices are being handed over.
    Vertices(VertexTask),
    /// The color uniform is being looked up.
    Uniform,
    /// The color is being set.
    Color,
    /// The triangle is being drawn.
    Draw,
    /// The triangle is drawn.
    Finished,
    /// Nothing was drawn.
    Failed(GlError),
}

/// The model of a [`DrawPhase`].
pub enum DrawPhaseView {
    Context(ContextTaskView),
    Program(ProgramTaskView),
    Vertices(VertexTaskView),
    Uniform,
    Color,
    Draw,
    Finished,
    Failed(GlErrorView),
}

impl View for DrawPhase {
    type V = DrawPhaseView;

    open spec fn view(&self) -> DrawPhaseView {
        match self {
            DrawPhase::Context(task) => DrawPhaseView::Context(task@),
            DrawPhase::Program(task) => DrawPhaseView::Program(task@),
            DrawPhase::Vertices(task) => DrawPhaseView::Vertices(task@),
            DrawPhase::Uniform => DrawPhaseView::Uniform,
            DrawPhase::Color => DrawPhaseView::Color,
            DrawPhase::Draw => DrawPhaseView::Draw,
            DrawPhase::Finished => DrawPhaseView::Finished,
            DrawPhase::Failed(error) => DrawPhaseView::Failed(error@),
        }
    }
}

/// One drawing of the triangle, in one color.
#[derive(Clone, Debug, PartialEq, Eq)]
pub struct DrawTask {
    pub color: Vec<u32>,
    pub phase: DrawPhase,
}

/// The model of a [`DrawTask`].
pub struct DrawTaskView {
    pub color: Seq<u32>,
    pub phase: DrawPhaseView,
}

impl View for DrawTask {
    type V = DrawTaskView;

    open spec fn view(&self) -> DrawTaskView {
        DrawTaskView { color: self.color@, phase: self.phase@ }
    }
}

impl DrawTaskView {
    /// The task before anything was asked of the host: it will draw on
    /// the canvas named `canvas_id`, in the color selected or in opaque
    /// red.
    pub open spec fn start(canvas_id: Seq<char>, selected: Option<Seq<u32>>) -> DrawTaskView {
        DrawTaskView {
            color: chosen_color(selected),
            phase: DrawPhaseView::Context(ContextTaskView::start(canvas_id)),
        }
    }

    /// The call that the task waits on, or `None` once it has ended.
    pub open spec fn request(self) -> Option<CommandView> {
        match self.phase {
            DrawPhaseView::Context(task) => task.request(),
            DrawPhaseView::Program(task) => task.request(),
            DrawPhaseView::Vertices(task) => task.request(),
            DrawPhaseView::Uniform => Some(
                CommandView::GetUniformLocation { name: color_uniform() },
            ),
            DrawPhaseView::Color => Some(CommandView::Uniform4fv { data: self.color }),
            DrawPhaseView::Draw => Some(
                CommandView::DrawArrays {
                    mode: TRIANGLES,
                    first: 0,
                    count: vertices_in(triangle_vertices()) as int,
                },
            ),
            DrawPhaseView::Finished => None,
            DrawPhaseView::Failed(_) => None,
        }
    }

    /// Whether `reply` is of the kind that answers the pending call.
    pub open spec fn accepts(self, reply: ReplyView) -> bool {
        answers(self.request(), reply)
    }

    /// The phase that follows when `reply` answers the pending call. A
    /// part that ends well gives way to the next part, from its start; a
    /// part that fails ends the drawing with its failure. A reply of
    /// another kind changes nothing: the call stays pending.
    pub open spec fn next_phase(self, reply: ReplyView) -> DrawPhaseView {
        match (self.phase, reply) {
            (DrawPhaseView::Context(task), _) => match task.advance(reply).outcome() {
                None => DrawPhaseView::Context(task.advance(reply)),
                Some(Ok(())) => DrawPhaseView::Program(ProgramTaskView::start()),
                Some(Err(error)) => DrawPhaseView::Failed(error),
            },
            (DrawPhaseView::Program(task), _) => match task.advance(reply).outcome() {
                None => DrawPhaseView::Program(task.advance(reply)),
                Some(Ok(())) => DrawPhaseView::Vertices(
                    VertexTaskView::start(triangle_vertices()),
                ),
                Some(Err(error)) => DrawPhaseView::Failed(error),
            },
            (DrawPhaseView::Vertices(task), _) => match task.advance(reply).outcome() {
                None => DrawPhaseView::Vertices(task.advance(reply)),
                Some(Ok(())) => DrawPhaseView::Uniform,
                Some(Err(error)) => DrawPhaseView::Failed(error),
            },
            (DrawPhaseView::Uniform, ReplyView::Presence(present)) => if present {
                DrawPhaseView::Color
            } else {
                DrawPhaseView::Failed(GlErrorView::UniformNotFound)
            },
            (DrawPhaseView::Color, ReplyView::Done) => DrawPhaseView::Draw,
            (DrawPhaseView::Draw, ReplyView::Done) => DrawPhaseView::Finished,
            (phase, _) => phase,
        }
    }

    /// The task after the host answered with `reply`.
    pub open spec fn advance(self, reply: ReplyView) -> DrawTaskView {
        DrawTaskView { phase: self.next_phase(reply), ..self }
    }

    /// How the task ended, or `None` while a call is pending.
    pub open spec fn outcome(self) -> Option<Result<(), GlErrorView>> {
        match self.phase {
            DrawPhaseView::Finished => Some(Ok(())),
            DrawPhaseView::Failed(error) => Some(Err(error)),
            _ => None,
        }
    }

    /// The task after the host gave `replies`, one after the other.
    pub open spec fn run(self, replies: Seq<ReplyView>) -> DrawTaskView
        decreases replies.len(),
    {
        if replies.len() == 0 {
            self
        } else {
            self.run(replies.drop_last()).advance(replies.last())
        }
    }

    /// The part that is under way is well formed and has a call pending;
    /// the vertices being handed over are those of the triangle; the log
    /// of a failure has text.
    pub open spec fn wf(self) -> bool {
        match self.phase {
            DrawPhaseView::Context(task) => task.wf() && task.outcome().is_none(),
            DrawPhaseView::Program(task) => task.wf() && task.outcome().is_none(),
            DrawPhaseView::Vertices(task) => {
                &&& task.vertices == triangle_vertices()
                &&& task.outcome().is_none()
            },
            DrawPhaseView::Failed(error) => error.wf(),
            _ => true,
        }
    }
}

impl DrawTask {
    /// A task that will draw the triangle on the canvas named `canvas_id`,
    /// in `selected_color` (red, green, blue and alpha as bit patterns) or,
    /// where that is `None`, in opaque red.
    pub fn new(canvas_id: &str, selected_color: Option<Vec<u32>>) -> (task: DrawTask)
        ensures
            task@ == DrawTaskView::start(
                canvas_id@,
                match selected_color {
                    Some(color) => Some(color@),
                    None => None,
                },
            ),
            task@.wf(),
    {
        DrawTask {
            color: resolve_color(selected_color),
            phase: DrawPhase::Context(ContextTask::new(canvas_id)),
        }
    }

    /// The call for the host to make now, or `None` once the task has ended.
    pub fn request(&self) -> (command: Option<Command>)
        ensures
            pending_view(command) == self@.request(),
    {
        match &self.phase {
            DrawPhase::Context(task) => task.request(),
            DrawPhase::Program(task) => task.request(),
            DrawPhase::Vertices(task) => task.request(),
            DrawPhase::Uniform => Some(
                Command::GetUniformLocation { name: "fragColor".to_owned() },
            ),
            DrawPhase::Color => Some(Command::Uniform4fv { data: copy_values(&self.color) }),
            DrawPhase::Draw => {
                let vertices = triangle();
                Some(
                    Command::DrawArrays {
                        mode: webgl_triangles(),
                        first: 0,
                        count: vertex_count(&vertices),
                    },
                )
            },
            DrawPhase::Finished => None,
            DrawPhase::Failed(_) => None,
        }
    }

    /// Whether the task has ended, in success or in failure.
    pub fn is_finished(&self) -> (finished: bool)
        ensures
            finished == self@.outcome().is_some(),
    {
        match &self.phase {
            DrawPhase::Finished => true,
            DrawPhase::Failed(_) => true,
            _ => false,
        }
    }

    /// How the task ended, or `None` while a call is pending.
    pub fn into_outcome(self) -> (end: Option<Result<(), GlError>>)
        ensures
            outcome_view(end) == self@.outcome(),
    {
        match self.phase {
            DrawPhase::Finished => Some(Ok(())),
            DrawPhase::Failed(error) => Some(Err(error)),
            _ => None,
        }
    }
}

/// Takes the host's answer to the call that `task` waits on and moves the
/// drawing on. Its parts follow one another: the context, the program,
/// the vertices of the triangle, the lookup of the color uniform
/// (`UniformNotFound` if the program has none), the color, and one draw of
/// the triangle's three vertices. The failure of a part ends the drawing
/// with that failure. Returns the task as it now stands and the call to
/// make next.
///
/// A size in `reply` has to fit the viewport's signed 32-bit extent.
pub fn draw_triangle(task: DrawTask, reply: Reply) -> (next: (DrawTask, Option<Command>))
    requires
        reply@.fits_viewport(),
    ensures
        next.0@ == task@.advance(reply@),
        pending_view(next.1) == next.0@.request(),
        task@.wf() ==> next.0@.wf(),
{
    proof {
        if task@.wf() {
            lemma_draw_advance_wf(task@, reply@);
        }
    }
    let DrawTask { color, phase } = task;
    let phase = match phase {
        DrawPhase::Context(context) => {
            let (context, _) = init_webgl_context(context, reply);
            match context.phase {
                ContextPhase::Ready { .. } => DrawPhase::Program(ProgramTask::new()),
                ContextPhase::Failed(error) => DrawPhase::Failed(error),
                phase => DrawPhase::Context(ContextTask { canvas_id: context.canvas_id, phase }),
            }
        },
        DrawPhase::Program(program) => {
            let (program, _) = setup_shaders(program, reply);
            match program.phase {
                ProgramPhase::Active => DrawPhase::Vertices(VertexTask::new(triangle())),
                ProgramPhase::Failed(error) => DrawPhase::Failed(error),
                phase => DrawPhase::Program(ProgramTask { phase }),
            }
        },
        DrawPhase::Vertices(vertices) => {
            let (vertices, _) = setup_vertices(vertices, reply);
            match vertices.phase {
                VertexPhase::Done => DrawPhase::Uniform,
                _ => DrawPhase::Vertices(vertices),
            }
        },
        DrawPhase::Uniform => match reply {
            Reply::Presence(true) => DrawPhase::Color,
            Reply::Presence(false) => DrawPhase::Failed(GlError::UniformNotFound),
            _ => DrawPhase::Uniform,
        },
        DrawPhase::Color => match reply {
            Reply::Done => DrawPhase::Draw,
            _ => DrawPhase::Color,
        },
        DrawPhase::Draw => match reply {
            Reply::Done => DrawPhase::Finished,
            _ => DrawPhase::Draw,
        },
        DrawPhase::Finished => DrawPhase::Finished,
        DrawPhase::Failed(error) => DrawPhase::Failed(error),
    };
    let next = DrawTask { color, phase };
    let command = next.request();
    (next, command)
}

/// What holds of a call in every drawing in `color`: a buffer is filled
/// with the nine coordinates of the triangle and nothing else, the color
/// uniform is set to `color`, and a draw takes three vertices from the
/// first on, as triangles.
pub open spec fn keeps_to_triangle(call: CommandView, color: Seq<u32>) -> bool {
    match call {
        CommandView::BufferData { target, data, usage } => {
            &&& target == ARRAY_BUFFER
            &&& data == triangle_vertices()
            &&& data.len() == 9
            &&& usage == STATIC_DRAW
        },
        CommandView::Uniform4fv { data } => data == color,
        CommandView::DrawArrays { mode, first, count } => {
            &&& mode == TRIANGLES
            &&& first == 0
            &&& count == 3
        },
        _ => true,
    }
}

/// A fresh task is well formed.
pub proof fn lemma_draw_start_wf(canvas_id: Seq<char>, selected: Option<Seq<u32>>)
    ensures
        DrawTaskView::start(canvas_id, selected).wf(),
{
}

/// One answer keeps a well-formed task well formed, and leaves it its
/// color.
pub proof fn lemma_draw_advance_wf(task: DrawTaskView, reply: ReplyView)
    requires
        task.wf(),
    ensures
        task.advance(reply).wf(),
        task.advance(reply).color == task.color,
{
    match task.phase {
        DrawPhaseView::Program(program) => {
            lemma_program_advance_wf(program, reply);
        },
        _ => {},
    }
}

/// However the host answers, a well-formed task stays well formed and
/// keeps its color.
pub proof fn lemma_draw_run_wf(task: DrawTaskView, replies: Seq<ReplyView>)
    requires
        task.wf(),
    ensures
        task.run(replies).wf(),
        task.run(replies).color == task.color,
    decreases replies.len(),
{
    if replies.len() > 0 {
        lemma_draw_run_wf(task, replies.drop_last());
        lemma_draw_advance_wf(task.run(replies.drop_last()), replies.last());
    }
}

/// A call is pending exactly while a well-formed task has not ended.
pub proof fn lemma_draw_request_or_outcome(task: DrawTaskView)
    requires
        task.wf(),
    ensures
        task.request().is_some() <==> task.outcome().is_none(),
{
}

/// A task that has ended stays as it is, whatever the host says.
pub proof fn lemma_draw_end_is_final(task: DrawTaskView, replies: Seq<ReplyView>)
    requires
        task.outcome().is_some(),
    ensures
        task.run(replies) == task,
    decreases replies.len(),
{
    if replies.len() > 0 {
        lemma_draw_end_is_final(task, replies.drop_last());
    }
}

/// A reply of a kind that does not answer the pending call changes nothing.
pub proof fn lemma_draw_ignores_other_replies(task: DrawTaskView, reply: ReplyView)
    requires
        task.wf(),
        !task.accepts(reply),
    ensures
        task.advance(reply) == task,
{
}

/// A drawing fails only in three places, and with the failure met there:
/// where the context fails, where the program fails, and where the color
/// uniform is not found.
pub proof fn lemma_draw_hands_failures_on(task: DrawTaskView, reply: ReplyView, error: GlErrorView)
    requires
        task.outcome().is_none(),
        task.advance(reply).outcome() == Some(Err::<(), GlErrorView>(error)),
    ensures
        match task.phase {
            DrawPhaseView::Context(part) => part.advance(reply).outcome() == Some(
                Err::<(), GlErrorView>(error),
            ),
            DrawPhaseView::Program(part) => part.advance(reply).outcome() == Some(
                Err::<(), GlErrorView>(error),
            ),
            DrawPhaseView::Uniform => reply == ReplyView::Presence(false) && error
                == GlErrorView::UniformNotFound,
            _ => false,
        },
{
}

/// When the canvas's size is read, the viewport is set next, from the
/// origin and to exactly that size.
pub proof fn lemma_draw_viewport_matches_canvas(task: DrawTaskView, width: nat, height: nat)
    requires
        task.request() == Some(CommandView::GetCanvasSize),
    ensures
        task.advance(ReplyView::Size { width, height }).request() == Some(
            CommandView::Viewport { x: 0, y: 0, width: width as int, height: height as int },
        ),
{
}

/// Whatever call a well-formed task has pending keeps to the triangle and
/// to the task's color.
pub proof fn lemma_draw_request_keeps_to_triangle(task: DrawTaskView)
    requires
        task.wf(),
    ensures
        task.request() is Some ==> keeps_to_triangle(task.request()->Some_0, task.color),
{
}

/// Whatever the host has answered so far, and whichever color was
/// selected: if the drawing now fills a buffer, it fills it with the nine
/// coordinates of the triangle; if it sets the color, it sets the one
/// selected, or opaque red where none was; if it draws, it draws three
/// vertices.
pub proof fn lemma_drawing_keeps_to_triangle(
    canvas_id: Seq<char>,
    selected: Option<Seq<u32>>,
    replies: Seq<ReplyView>,
)
    ensures
        ({
            let now = DrawTaskView::start(canvas_id, selected).run(replies);
            now.request() is Some ==> keeps_to_triangle(
                now.request()->Some_0,
                chosen_color(selected),
            )
        }),
{
    let start = DrawTaskView::start(canvas_id, selected);
    lemma_draw_run_wf(start, replies);
    lemma_draw_request_keeps_to_triangle(start.run(replies));
}

/// A drawing first asks for the canvas of the given name. When the host
/// answers that there is none, the drawing fails with `NotFound` then and
/// there: no answer that the host may still give brings another call, so
/// nothing is asked of a context, a shader or a buffer.
pub proof fn lemma_missing_canvas_ends_drawing(
    canvas_id: Seq<char>,
    selected: Option<Seq<u32>>,
    replies: Seq<ReplyView>,
)
    ensures
        ({
            let start = DrawTaskView::start(canvas_id, selected);
            let ended = start.advance(ReplyView::Presence(false));
            &&& start.request() == Some(CommandView::GetCanvas { id: canvas_id })
            &&& ended.outcome() == Some(Err::<(), GlErrorView>(GlErrorView::NotFound))
            &&& ended.run(replies) == ended
            &&& ended.run(replies).request().is_none()
        }),
{
    let ended = DrawTaskView::start(canvas_id, selected).advance(ReplyView::Presence(false));
    lemma_draw_end_is_final(ended, replies);
}

} // verus!
