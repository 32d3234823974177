//! Getting a rendering context: find the canvas, ask it for a context,
//! and set the viewport to the canvas's size in pixels.

use vstd::prelude::*;
use crate::command::{answers, pending_view, Command, CommandView, Reply, ReplyView};
use crate::error::{outcome_view, GlError, GlErrorView};

verus! {

/// The kind of context that is asked of the canvas.
pub open spec fn context_kind() -> Seq<char> {
    "webgl"@
}

/// Where the acquisition of a context stands.
#[derive(Clone, Debug, PartialEq, Eq)]
pub enum ContextPhase {
    /// The canvas is being looked up.
    Canvas,
    /// The canvas is being asked for a context.
    Context,
    /// The canvas's size is being read.
    Size,
    /// The viewport is being set to this size.
    Viewport { width: i32, height: i32 },
    /// The context is there, with its viewport at this size.
    Ready { width: i32, height: i32 },
    /// No context was had.
    Failed(GlError),
}

/// The model of a [`ContextPhase`].
pub enum ContextPhaseView {
    Canvas,
    Context,
    Size,
    Viewport { width: int, height: int },
    Ready { width: int, height: int },
    Failed(GlErrorView),
}

impl View for ContextPhase {
    type V = ContextPhaseView;

    open spec fn view(&self) -> ContextPhaseView {
        match self {
            ContextPhase::Canvas => ContextPhaseView::Canvas,
            ContextPhase::Context => ContextPhaseView::Context,
            ContextPhase::Size => ContextPhaseView::Size,
            ContextPhase::Viewport { width, height } => ContextPhaseView::Viewport {
                width: *width as int,
                height: *height as int,
            },
            ContextPhase::Ready { width, height } => ContextPhaseView::Ready {
                width: *width as int,
                height: *height as int,
            },
            ContextPhase::Failed(error) => ContextPhaseView::Failed(error@),
        }
    }
}

/// The acquisition of a context for the canvas with a given identifier.
#[derive(Clone, Debug, PartialEq, Eq)]
pub struct ContextTask {
    pub canvas_id: String,
    pub phase: ContextPhase,
}

/// The model of a [`ContextTask`].
pub struct ContextTaskView {
    pub canvas_id: Seq<char>,
    pub phase: ContextPhaseView,
}

impl View for ContextTask {
    type V = ContextTaskView;

    open spec fn view(&self) -> ContextTaskView {
        ContextTaskView { canvas_id: self.canvas_id@, phase: self.phase@ }
    }
}

impl ContextTaskView {
    /// The task before anything was asked of the host.
    pub open spec fn start(canvas_id: Seq<char>) -> ContextTaskView {
        ContextTaskView { canvas_id, phase: ContextPhaseView::Canvas }
    }

    /// The call that the task waits on, or `None` once it has ended.
    pub open spec fn request(self) -> Option<CommandView> {
        match self.phase {
            ContextPhaseView::Canvas => Some(CommandView::GetCanvas { id: self.canvas_id }),
            ContextPhaseView::Context => Some(CommandView::GetContext { kind: context_kind() }),
            ContextPhaseView::Size => Some(CommandView::GetCanvasSize),
            ContextPhaseView::Viewport { width, height } => Some(
                CommandView::Viewport { x: 0, y: 0, width, height },
            ),
            ContextPhaseView::Ready { .. } => None,
            ContextPhaseView::Failed(_) => None,
        }
    }

    /// Whether `reply` is of the kind that answers the pending call.
    pub open spec fn accepts(self, reply: ReplyView) -> bool {
        answers(self.request(), reply)
    }

    /// The phase that follows when `reply` answers the pending call. A reply
    /// of another kind changes nothing: the call stays pending.
    pub open spec fn next_phase(self, reply: ReplyView) -> ContextPhaseView {
        match (self.phase, reply) {
            (ContextPhaseView::Canvas, ReplyView::Presence(present)) => if present {
                ContextPhaseView::Context
            } else {
                ContextPhaseView::Failed(GlErrorView::NotFound)
            },
            (ContextPhaseView::Context, ReplyView::Presence(present)) => if present {
                ContextPhaseView::Size
            } else {
                ContextPhaseView::Failed(GlErrorView::ContextUnavailable)
            },
            (ContextPhaseView::Size, ReplyView::Size { width, height }) => {
                ContextPhaseView::Viewport { width: width as int, height: height as int }
            },
            (ContextPhaseView::Viewport { width, height }, ReplyView::Done) => {
                ContextPhaseView::Ready { width, height }
            },
            (phase, _) => phase,
        }
    }

    /// The task after the host answered with `reply`.
    pub open spec fn advance(self, reply: ReplyView) -> ContextTaskView {
        ContextTaskView { phase: self.next_phase(reply), ..self }
    }

    /// How the task ended, or `None` while a call is pending.
    pub open spec fn outcome(self) -> Option<Result<(), GlErrorView>> {
        match self.phase {
            ContextPhaseView::Ready { .. } => Some(Ok(())),
            ContextPhaseView::Failed(error) => Some(Err(error)),
            _ => None,
        }
    }

    /// The task after the host gave `replies`, one after the other.
    pub open spec fn run(self, replies: Seq<ReplyView>) -> ContextTaskView
        decreases replies.len(),
    {
        if replies.len() == 0 {
            self
        } else {
            self.run(replies.drop_last()).advance(replies.last())
        }
    }

    /// A failure, where there is one, is one that getting a context can
    /// end in.
    pub open spec fn wf(self) -> bool {
        match self.phase {
            ContextPhaseView::Failed(error) => error is NotFound || error is ContextUnavailable,
            _ => true,
        }
    }
}

impl ContextTask {
    /// A task that will get a context for the canvas named `canvas_id`.
    pub fn new(canvas_id: &str) -> (task: ContextTask)
        ensures
            task@ == ContextTaskView::start(canvas_id@),
            task@.wf(),
    {
        ContextTask { canvas_id: canvas_id.to_owned(), phase: ContextPhase::Canvas }
    }

    /// The call for the host to make now, or `None` once the task has ended.
    pub fn request(&self) -> (command: Option<Command>)
        ensures
            pending_view(command) == self@.request(),
    {
        match &self.phase {
            ContextPhase::Canvas => Some(Command::GetCanvas { id: self.canvas_id.clone() }),
            ContextPhase::Context => Some(Command::GetContext { kind: "webgl".to_owned() }),
            ContextPhase::Size => Some(Command::GetCanvasSize),
            ContextPhase::Viewport { width, height } => Some(
                Command::Viewport { x: 0, y: 0, width: *width, height: *height },
            ),
            ContextPhase::Ready { .. } => None,
            ContextPhase::Failed(_) => None,
        }
    }

    /// Whether the task has ended, in success or in failure.
    pub fn is_finished(&self) -> (finished: bool)
        ensures
            finished == self@.outcome().is_some(),
            finished == self@.request().is_none(),
    {
        match &self.phase {
            ContextPhase::Ready { .. } => true,
            ContextPhase::Failed(_) => true,
            _ => false,
        }
    }

    /// The size that the viewport was set to, once the context is ready.
    pub fn viewport(&self) -> (size: Option<(i32, i32)>)
        ensures
            match size {
                Some((width, height)) => self@.phase == (ContextPhaseView::Ready {
                    width: width as int,
                    height: height as int,
                }),
                None => !(self@.phase is Ready),
            },
    {
        match &self.phase {
            ContextPhase::Ready { width, height } => Some((*width, *height)),
            _ => None,
        }
    }

    /// How the task ended, or `None` while a call is pending.
    pub fn into_outcome(self) -> (end: Option<Result<(), GlError>>)
        ensures
            outcome_view(end) == self@.outcome(),
    {
        match self.phase {
            ContextPhase::Ready { .. } => Some(Ok(())),
            ContextPhase::Failed(error) => Some(Err(error)),
            _ => None,
        }
    }
}

/// Takes the host's answer to the call that `task` waits on and moves the
/// task on: from the canvas to its context to its size to the viewport,
/// which is set to exactly that size, from the origin. Without a canvas
/// the task fails with `NotFound`, without a context with
/// `ContextUnavailable`. Returns the task as it now stands and the call to
/// make next.
///
/// A size in `reply` has to fit the viewport's signed 32-bit extent.
pub fn init_webgl_context(task: ContextTask, reply: Reply) -> (next: (ContextTask, Option<Command>))
    requires
        reply@.fits_viewport(),
    ensures
        next.0@ == task@.advance(reply@),
        pending_view(next.1) == next.0@.request(),
        task@.wf() ==> next.0@.wf(),
{
    let ContextTask { canvas_id, phase } = task;
    let phase = match phase {
        ContextPhase::Canvas => match reply {
            Reply::Presence(true) => ContextPhase::Context,
            Reply::Presence(false) => ContextPhase::Failed(GlError::NotFound),
            _ => ContextPhase::Canvas,
        },
        ContextPhase::Context => match reply {
            Reply::Presence(true) => ContextPhase::Size,
            Reply::Presence(false) => ContextPhase::Failed(GlError::ContextUnavailable),
            _ => ContextPhase::Context,
        },
        ContextPhase::Size => match reply {
            Reply::Size { width, height } => ContextPhase::Viewport {
                width: width as i32,
                height: height as i32,
            },
            _ => ContextPhase::Size,
        },
        ContextPhase::Viewport { width, height } => match reply {
            Reply::Done => ContextPhase::Ready { width, height },
            _ => ContextPhase::Viewport { width, height },
        },
        ContextPhase::Ready { width, height } => ContextPhase::Ready { width, height },
        ContextPhase::Failed(error) => ContextPhase::Failed(error),
    };
    let next = ContextTask { canvas_id, phase };
    let command = next.request();
    (next, command)
}

/// A call is pending exactly while the task has not ended.
pub proof fn lemma_context_request_or_outcome(task: ContextTaskView)
    ensures
        task.request().is_some() <==> task.outcome().is_none(),
{
}

/// A task that has ended stays as it is, whatever the host says.
pub proof fn lemma_context_end_is_final(task: ContextTaskView, replies: Seq<ReplyView>)
    requires
        task.outcome().is_some(),
    ensures
        task.run(replies) == task,
    decreases replies.len(),
{
    if replies.len() > 0 {
        lemma_context_end_is_final(task, replies.drop_last());
    }
}

/// A reply of a kind that does not answer the pending call changes nothing.
pub proof fn lemma_context_ignores_other_replies(task: ContextTaskView, reply: ReplyView)
    requires
        !task.accepts(reply),
    ensures
        task.advance(reply) == task,
{
}

/// The viewport is set to the canvas's width and height as they were read,
/// from the origin, and a context that is ready has its viewport at
/// exactly that size.
pub proof fn lemma_viewport_matches_canvas(task: ContextTaskView, width: nat, height: nat)
    requires
        task.phase is Size,
    ensures
        task.advance(ReplyView::Size { width, height }).request() == Some(
            CommandView::Viewport { x: 0, y: 0, width: width as int, height: height as int },
        ),
        task.advance(ReplyView::Size { width, height }).advance(ReplyView::Done).phase == (
        ContextPhaseView::Ready { width: width as int, height: height as int }),
{
}

/// When the canvas is not there the task fails with `NotFound` at once,
/// and no answer that the host may still give brings another call.
pub proof fn lemma_missing_canvas_ends_task(canvas_id: Seq<char>, replies: Seq<ReplyView>)
    ensures
        ({
            let ended = ContextTaskView::start(canvas_id).advance(ReplyView::Presence(false));
            &&& ended.outcome() == Some(Err::<(), GlErrorView>(GlErrorView::NotFound))
            &&& ended.run(replies) == ended
            &&& ended.run(replies).request().is_none()
        }),
{
    let ended = ContextTaskView::start(canvas_id).advance(ReplyView::Presence(false));
    lemma_context_end_is_final(ended, replies);
}

/// However the host answers, a well-formed task fails only with `NotFound`
/// or `ContextUnavailable`, and it keeps the canvas's identifier.
pub proof fn lemma_context_run_wf(task: ContextTaskView, replies: Seq<ReplyView>)
    requires
        task.wf(),
    ensures
        task.run(replies).wf(),
        task.run(replies).canvas_id == task.canvas_id,
    decreases replies.len(),
{
    if replies.len() > 0 {
        lemma_context_run_wf(task, replies.drop_last());
    }
}

} // verus!
