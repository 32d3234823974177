//! Building the program: compile the two shaders, attach them, link, read
//! the link flag, and make the program the current one.

use vstd::prelude::*;
use crate::codes::{webgl_link_status, ShaderStage, LINK_STATUS};
use crate::command::{answers, pending_view, Command, CommandView, Reply, ReplyView};
use crate::error::{diagnostic, diagnostic_text, outcome_view, unknown_program_error};
use crate::error::{lemma_diagnostic_nonempty, lemma_fallbacks_nonempty};
use crate::error::{GlError, GlErrorView};
use crate::shader::{create_shader, lemma_shader_advance_wf};
use crate::shader::{ShaderPhase, ShaderTask, ShaderTaskView};

verus! {

/// The vertex stage: takes each position as it is and makes it homogeneous.
pub const VERTEX_SOURCE: &'static str = "
        attribute vec3 coordinates;
        void main(void) {
            gl_Position = vec4(coordinates, 1.0);
        }
        ";

/// The fragment stage: gives every pixel the one color of the uniform.
pub const FRAGMENT_SOURCE: &'static str = "
        precision mediump float;
        uniform vec4 fragColor;
        void main(void) {
            gl_FragColor = fragColor;
        }
        ";

/// Where the building of the program stands.
#[derive(Clone, Debug, PartialEq, Eq)]
pub enum ProgramPhase {
    /// The vertex shader is being compiled.
    Vertex(ShaderTask),
    /// The vertex shader compiled; the fragment shader is being compiled.
    Fragment(ShaderTask),
    /// Both shaders compiled; the program object is being created.
    Create,
    /// The vertex shader is being attached.
    AttachVertex,
    /// The fragment shader is being attached.
    AttachFragment,
    /// The program is being linked.
    Link,
    /// The link flag is being read.
    Status,
    /// The flag was not `true`: the log is being read.
    Log,
    /// The program linked and is being made the current one.
    Use,
    /// The program is linked and current.
    Active,
    /// No program was made.
    Failed(GlError),
}

/// The model of a [`ProgramPhase`].
pub enum ProgramPhaseView {
    Vertex(ShaderTaskView),
    Fragment(ShaderTaskView),
    Create,
    AttachVertex,
    AttachFragment,
    Link,
    Status,
    Log,
    Use,
    Active,
    Failed(GlErrorView),
}

impl View for ProgramPhase {
    type V = ProgramPhaseView;

    open spec fn view(&self) -> ProgramPhaseView {
        match self {
            ProgramPhase::Vertex(shader) => ProgramPhaseView::Vertex(shader@),
            ProgramPhase::Fragment(shader) => ProgramPhaseView::Fragment(shader@),
            ProgramPhase::Create => ProgramPhaseView::Create,
            ProgramPhase::AttachVertex => ProgramPhaseView::AttachVertex,
            ProgramPhase::AttachFragment => ProgramPhaseView::AttachFragment,
            ProgramPhase::Link => ProgramPhaseView::Link,
            ProgramPhase::Status => ProgramPhaseView::Status,
            ProgramPhase::Log => ProgramPhaseView::Log,
            ProgramPhase::Use => ProgramPhaseView::Use,
            ProgramPhase::Active => ProgramPhaseView::Active,
            ProgramPhase::Failed(error) => ProgramPhaseView::Failed(error@),
        }
    }
}

/// The building of the program from the two fixed sources.
#[derive(Clone, Debug, PartialEq, Eq)]
pub struct ProgramTask {
    pub phase: ProgramPhase,
}

/// The model of a [`ProgramTask`].
pub struct ProgramTaskView {
    pub phase: ProgramPhaseView,
}

impl View for ProgramTask {
    type V = ProgramTaskView;

    open spec fn view(&self) -> ProgramTaskView {
        ProgramTaskView { phase: self.phase@ }
    }
}

impl ProgramTaskView {
    /// The task before anything was asked of the host.
    pub open spec fn start() -> ProgramTaskView {
        ProgramTaskView {
            phase: ProgramPhaseView::Vertex(
                ShaderTaskView::start(ShaderStage::Vertex, VERTEX_SOURCE@),
            ),
        }
    }

    /// The call that the task waits on, or `None` once it has ended.
    pub open spec fn request(self) -> Option<CommandView> {
        match self.phase {
            ProgramPhaseView::Vertex(shader) => shader.request(),
            ProgramPhaseView::Fragment(shader) => shader.request(),
            ProgramPhaseView::Create => Some(CommandView::CreateProgram),
            ProgramPhaseView::AttachVertex => Some(
                CommandView::AttachShader { stage: ShaderStage::Vertex },
            ),
            ProgramPhaseView::AttachFragment => Some(
                CommandView::AttachShader { stage: ShaderStage::Fragment },
            ),
            ProgramPhaseView::Link => Some(CommandView::LinkProgram),
            ProgramPhaseView::Status => Some(
                CommandView::GetProgramParameter { pname: LINK_STATUS },
            ),
            ProgramPhaseView::Log => Some(CommandView::GetProgramInfoLog),
            ProgramPhaseView::Use => Some(CommandView::UseProgram),
            ProgramPhaseView::Active => None,
            ProgramPhaseView::Failed(_) => None,
        }
    }

    /// Whether `reply` is of the kind that answers the pending call.
    pub open spec fn accepts(self, reply: ReplyView) -> bool {
        answers(self.request(), reply)
    }

    /// The phase that follows when `reply` answers the pending call. A
    /// shader that compiles gives way to what comes next; one that fails
    /// ends the task with its failure. A reply of another kind changes
    /// nothing: the call stays pending.
    pub open spec fn next_phase(self, reply: ReplyView) -> ProgramPhaseView {
        match (self.phase, reply) {
            (ProgramPhaseView::Vertex(shader), _) => match shader.advance(reply).outcome() {
                None => ProgramPhaseView::Vertex(shader.advance(reply)),
                Some(Ok(())) => ProgramPhaseView::Fragment(
                    ShaderTaskView::start(ShaderStage::Fragment, FRAGMENT_SOURCE@),
                ),
                Some(Err(error)) => ProgramPhaseView::Failed(error),
            },
            (ProgramPhaseView::Fragment(shader), _) => match shader.advance(reply).outcome() {
                None => ProgramPhaseView::Fragment(shader.advance(reply)),
                Some(Ok(())) => ProgramPhaseView::Create,
                Some(Err(error)) => ProgramPhaseView::Failed(error),
            },
            (ProgramPhaseView::Create, ReplyView::Presence(present)) => if present {
                ProgramPhaseView::AttachVertex
            } else {
                ProgramPhaseView::Failed(GlErrorView::ProgramCreation)
            },
            (ProgramPhaseView::AttachVertex, ReplyView::Done) => ProgramPhaseView::AttachFragment,
            (ProgramPhaseView::AttachFragment, ReplyView::Done) => ProgramPhaseView::Link,
            (ProgramPhaseView::Link, ReplyView::Done) => ProgramPhaseView::Status,
            (ProgramPhaseView::Status, ReplyView::Flag(flag)) => if flag == Some(true) {
                ProgramPhaseView::Use
            } else {
                ProgramPhaseView::Log
            },
            (ProgramPhaseView::Log, ReplyView::Log(log)) => ProgramPhaseView::Failed(
                GlErrorView::ProgramLink(diagnostic(log, unknown_program_error())),
            ),
            (ProgramPhaseView::Use, ReplyView::Done) => ProgramPhaseView::Active,
            (phase, _) => phase,
        }
    }

    /// The task after the host answered with `reply`.
    pub open spec fn advance(self, reply: ReplyView) -> ProgramTaskView {
        ProgramTaskView { phase: self.next_phase(reply) }
    }

    /// How the task ended, or `None` while a call is pending.
    pub open spec fn outcome(self) -> Option<Result<(), GlErrorView>> {
        match self.phase {
            ProgramPhaseView::Active => Some(Ok(())),
            ProgramPhaseView::Failed(error) => Some(Err(error)),
            _ => None,
        }
    }

    /// The task after the host gave `replies`, one after the other.
    pub open spec fn run(self, replies: Seq<ReplyView>) -> ProgramTaskView
        decreases replies.len(),
    {
        if replies.len() == 0 {
            self
        } else {
            self.run(replies.drop_last()).advance(replies.last())
        }
    }

    /// While a shader is being compiled it is the one of its stage, from
    /// the fixed source, and still has a call pending. A failure is one
    /// that building a program can end in, and its log has text.
    pub open spec fn wf(self) -> bool {
        match self.phase {
            ProgramPhaseView::Vertex(shader) => {
                &&& shader.stage == ShaderStage::Vertex
                &&& shader.source == VERTEX_SOURCE@
                &&& shader.outcome().is_none()
            },
            ProgramPhaseView::Fragment(shader) => {
                &&& shader.stage == ShaderStage::Fragment
                &&& shader.source == FRAGMENT_SOURCE@
                &&& shader.outcome().is_none()
            },
            ProgramPhaseView::Failed(error) => {
                &&& error is ShaderCreation || error is ShaderCompile || error is ProgramCreation
                    || error is ProgramLink
                &&& error.wf()
            },
            _ => true,
        }
    }
}

impl ProgramTask {
    /// A task that will build the program.
    pub fn new() -> (task: ProgramTask)
        ensures
            task@ == ProgramTaskView::start(),
            task@.wf(),
    {
        ProgramTask {
            phase: ProgramPhase::Vertex(ShaderTask::new(ShaderStage::Vertex, VERTEX_SOURCE)),
        }
    }

    /// The call for the host to make now, or `None` once the task has ended.
    pub fn request(&self) -> (command: Option<Command>)
        ensures
            pending_view(command) == self@.request(),
    {
        match &self.phase {
            ProgramPhase::Vertex(shader) => shader.request(),
            ProgramPhase::Fragment(shader) => shader.request(),
            ProgramPhase::Create => Some(Command::CreateProgram),
            ProgramPhase::AttachVertex => Some(
                Command::AttachShader { stage: ShaderStage::Vertex },
            ),
            ProgramPhase::AttachFragment => Some(
                Command::AttachShader { stage: ShaderStage::Fragment },
            ),
            ProgramPhase::Link => Some(Command::LinkProgram),
            ProgramPhase::Status => Some(
                Command::GetProgramParameter { pname: webgl_link_status() },
            ),
            ProgramPhase::Log => Some(Command::GetProgramInfoLog),
            ProgramPhase::Use => Some(Command::UseProgram),
            ProgramPhase::Active => None,
            ProgramPhase::Failed(_) => None,
        }
    }

    /// Whether the task has ended, in success or in failure.
    pub fn is_finished(&self) -> (finished: bool)
        ensures
            finished == self@.outcome().is_some(),
    {
        match &self.phase {
            ProgramPhase::Active => true,
            ProgramPhase::Failed(_) => true,
            _ => false,
        }
    }

    /// How the task ended, or `None` while a call is pending.
    pub fn into_outcome(self) -> (end: Option<Result<(), GlError>>)
        ensures
            outcome_view(end) == self@.outcome(),
    {
        match self.phase {
            ProgramPhase::Active => Some(Ok(())),
            ProgramPhase::Failed(error) => Some(Err(error)),
            _ => None,
        }
    }
}

/// Takes the host's answer to the call that `task` waits on and moves the
/// task on. The vertex shader is compiled first, then the fragment shader;
/// the failure of either ends the task with that failure. Only then is the
/// program created (`ProgramCreation` if it is not), are the two shaders
/// attached, and is the program linked. When the link flag is `true` the
/// program is made current and the task ends `Active`; on any other flag
/// the log is fetched and the task fails with `ProgramLink` and the log,
/// or the fallback text. Returns the task as it now stands and the call to
/// make next.
pub fn setup_shaders(task: ProgramTask, reply: Reply) -> (next: (ProgramTask, Option<Command>))
    ensures
        next.0@ == task@.advance(reply@),
        pending_view(next.1) == next.0@.request(),
        task@.wf() ==> next.0@.wf(),
{
    proof {
        if task@.wf() {
            lemma_program_advance_wf(task@, reply@);
        }
    }
    let phase = match task.phase {
        ProgramPhase::Vertex(shader) => {
            let (shader, _) = create_shader(shader, reply);
            match shader.phase {
                ShaderPhase::Compiled => ProgramPhase::Fragment(
                    ShaderTask::new(ShaderStage::Fragment, FRAGMENT_SOURCE),
                ),
                ShaderPhase::Failed(error) => ProgramPhase::Failed(error),
                phase => ProgramPhase::Vertex(
                    ShaderTask { stage: shader.stage, source: shader.source, phase },
                ),
            }
        },
        ProgramPhase::Fragment(shader) => {
            let (shader, _) = create_shader(shader, reply);
            match shader.phase {
                ShaderPhase::Compiled => ProgramPhase::Create,
                ShaderPhase::Failed(error) => ProgramPhase::Failed(error),
                phase => ProgramPhase::Fragment(
                    ShaderTask { stage: shader.stage, source: shader.source, phase },
                ),
            }
        },
        ProgramPhase::Create => match reply {
            Reply::Presence(true) => ProgramPhase::AttachVertex,
            Reply::Presence(false) => ProgramPhase::Failed(GlError::ProgramCreation),
            _ => ProgramPhase::Create,
        },
        ProgramPhase::AttachVertex => match reply {
            Reply::Done => ProgramPhase::AttachFragment,
            _ => ProgramPhase::AttachVertex,
        },
        ProgramPhase::AttachFragment => match reply {
            Reply::Done => ProgramPhase::Link,
            _ => ProgramPhase::AttachFragment,
        },
        ProgramPhase::Link => match reply {
            Reply::Done => ProgramPhase::Status,
            _ => ProgramPhase::Link,
        },
        ProgramPhase::Status => match reply {
            Reply::Flag(Some(true)) => ProgramPhase::Use,
            Reply::Flag(_) => ProgramPhase::Log,
            _ => ProgramPhase::Status,
        },
        ProgramPhase::Log => match reply {
            Reply::Log(log) => ProgramPhase::Failed(
                GlError::ProgramLink(diagnostic_text(log, "Unknown error linking program")),
            ),
            _ => ProgramPhase::Log,
        },
        ProgramPhase::Use => match reply {
            Reply::Done => ProgramPhase::Active,
            _ => ProgramPhase::Use,
        },
        ProgramPhase::Active => ProgramPhase::Active,
        ProgramPhase::Failed(error) => ProgramPhase::Failed(error),
    };
    let next = ProgramTask { phase };
    let command = next.request();
    (next, command)
}

/// A call is pending exactly while a well-formed task has not ended.
pub proof fn lemma_program_request_or_outcome(task: ProgramTaskView)
    requires
        task.wf(),
    ensures
        task.request().is_some() <==> task.outcome().is_none(),
{
}

/// A task that has ended stays as it is, whatever the host says.
pub proof fn lemma_program_end_is_final(task: ProgramTaskView, replies: Seq<ReplyView>)
    requires
        task.outcome().is_some(),
    ensures
        task.run(replies) == task,
    decreases replies.len(),
{
    if replies.len() > 0 {
        lemma_program_end_is_final(task, replies.drop_last());
    }
}

/// A reply of a kind that does not answer the pending call changes nothing.
pub proof fn lemma_program_ignores_other_replies(task: ProgramTaskView, reply: ReplyView)
    requires
        task.wf(),
        !task.accepts(reply),
    ensures
        task.advance(reply) == task,
{
}

/// The fragment shader is taken up only when the vertex shader's compile
/// flag was read as `true`, and the program is created only when the
/// fragment shader's was: linking is never tried on a shader that did not
/// compile.
pub proof fn lemma_program_needs_compiled_shaders(task: ProgramTaskView, reply: ReplyView)
    requires
        task.wf(),
    ensures
        task.advance(reply).phase is Fragment && !(task.phase is Fragment) ==> {
            &&& task.phase is Vertex
            &&& task.request() == Some(
                CommandView::GetShaderParameter {
                    stage: ShaderStage::Vertex,
                    pname: crate::codes::COMPILE_STATUS,
                },
            )
            &&& reply == ReplyView::Flag(Some(true))
        },
        task.advance(reply).phase is Create && !(task.phase is Create) ==> {
            &&& task.phase is Fragment
            &&& task.request() == Some(
                CommandView::GetShaderParameter {
                    stage: ShaderStage::Fragment,
                    pname: crate::codes::COMPILE_STATUS,
                },
            )
            &&& reply == ReplyView::Flag(Some(true))
        },
{
}

/// When the link flag is read as `true` the program is made current and
/// the task then ends in success; on any other flag the log is asked for.
pub proof fn lemma_link_flag_decides(task: ProgramTaskView, flag: Option<bool>)
    requires
        task.phase is Status,
    ensures
        flag == Some(true) ==> {
            &&& task.advance(ReplyView::Flag(flag)).request() == Some(CommandView::UseProgram)
            &&& task.advance(ReplyView::Flag(flag)).advance(ReplyView::Done).outcome() == Some(
                Ok::<(), GlErrorView>(()),
            )
        },
        flag != Some(true) ==> task.advance(ReplyView::Flag(flag)).request() == Some(
            CommandView::GetProgramInfoLog,
        ),
{
}

/// The program is made current only after its link flag was read as
/// `true`.
pub proof fn lemma_use_needs_link(task: ProgramTaskView, reply: ReplyView)
    requires
        task.advance(reply).phase is Use,
        !(task.phase is Use),
    ensures
        task.request() == Some(CommandView::GetProgramParameter { pname: LINK_STATUS }),
        reply == ReplyView::Flag(Some(true)),
{
}

/// Whatever log the host reports for a program that did not link, the
/// task fails with `ProgramLink` and a text that is not empty.
pub proof fn lemma_link_failure_has_text(task: ProgramTaskView, log: Option<Seq<char>>)
    requires
        task.phase is Log,
    ensures
        task.advance(ReplyView::Log(log)).outcome() == Some(
            Err::<(), GlErrorView>(
                GlErrorView::ProgramLink(diagnostic(log, unknown_program_error())),
            ),
        ),
        diagnostic(log, unknown_program_error()).len() > 0,
{
    lemma_fallbacks_nonempty();
    lemma_diagnostic_nonempty(log, unknown_program_error());
}

/// A fresh task is well formed.
pub proof fn lemma_program_start_wf()
    ensures
        ProgramTaskView::start().wf(),
{
}

/// One answer keeps a well-formed task well formed.
pub proof fn lemma_program_advance_wf(task: ProgramTaskView, reply: ReplyView)
    requires
        task.wf(),
    ensures
        task.advance(reply).wf(),
{
    lemma_fallbacks_nonempty();
    match task.phase {
        ProgramPhaseView::Vertex(shader) => {
            lemma_shader_advance_wf(shader, reply);
        },
        ProgramPhaseView::Fragment(shader) => {
            lemma_shader_advance_wf(shader, reply);
        },
        _ => {},
    }
}

/// However the host answers, a well-formed task stays well formed: it
/// compiles the two fixed sources, each for its stage, and fails only
/// with a failure of compiling or linking whose log has text.
pub proof fn lemma_program_run_wf(task: ProgramTaskView, replies: Seq<ReplyView>)
    requires
        task.wf(),
    ensures
        task.run(replies).wf(),
    decreases replies.len(),
{
    if replies.len() > 0 {
        lemma_program_run_wf(task, replies.drop_last());
        lemma_program_advance_wf(task.run(replies.drop_last()), replies.last());
    }
}

} // verus!
