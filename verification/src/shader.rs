//! Compiling one shader: create the object, give it its source, compile,
//! read the compile flag, and on failure fetch the compiler's log.

use vstd::prelude::*;
use crate::codes::{webgl_compile_status, ShaderStage, COMPILE_STATUS};
use crate::command::{answers, pending_view, Command, CommandView, Reply, ReplyView};
use crate::error::{diagnostic, diagnostic_text, outcome_view, unknown_shader_error};
use crate::error::{GlError, GlErrorView};
use crate::error::{lemma_diagnostic_nonempty, lemma_fallbacks_nonempty};

verus! {

/// Where the compilation of a shader stands. Each phase but the last two
/// has one call pending and waits for its answer.
#[derive(Clone, Debug, PartialEq, Eq)]
pub enum ShaderPhase {
    /// The shader object is being created.
    Create,
    /// The object is being given its source.
    Source,
    /// The compiler is being run.
    Compile,
    /// The compile flag is being read.
    Status,
    /// The flag was not `true`: the log is being read.
    Log,
    /// The shader compiled.
    Compiled,
    /// The shader was not made.
    Failed(GlError),
}

/// The model of a [`ShaderPhase`].
pub enum ShaderPhaseView {
    Create,
    Source,
    Compile,
    Status,
    Log,
    Compiled,
    Failed(GlErrorView),
}

impl View for ShaderPhase {
    type V = ShaderPhaseView;

    open spec fn view(&self) -> ShaderPhaseView {
        match self {
            ShaderPhase::Create => ShaderPhaseView::Create,
            ShaderPhase::Source => ShaderPhaseView::Source,
            ShaderPhase::Compile => ShaderPhaseView::Compile,
            ShaderPhase::Status => ShaderPhaseView::Status,
            ShaderPhase::Log => ShaderPhaseView::Log,
            ShaderPhase::Compiled => ShaderPhaseView::Compiled,
            ShaderPhase::Failed(error) => ShaderPhaseView::Failed(error@),
        }
    }
}

/// The compilation of one shader: its stage, its source, and how far it
/// has come.
#[derive(Clone, Debug, PartialEq, Eq)]
pub struct ShaderTask {
    pub stage: ShaderStage,
    pub source: String,
    pub phase: ShaderPhase,
}

/// The model of a [`ShaderTask`].
pub struct ShaderTaskView {
    pub stage: ShaderStage,
    pub source: Seq<char>,
    pub phase: ShaderPhaseView,
}

impl View for ShaderTask {
    type V = ShaderTaskView;

    open spec fn view(&self) -> ShaderTaskView {
        ShaderTaskView { stage: self.stage, source: self.source@, phase: self.phase@ }
    }
}

impl ShaderTaskView {
    /// The task before anything was asked of the host.
    pub open spec fn start(stage: ShaderStage, source: Seq<char>) -> ShaderTaskView {
        ShaderTaskView { stage, source, phase: ShaderPhaseView::Create }
    }

    /// The call that the task waits on, or `None` once it has ended.
    pub open spec fn request(self) -> Option<CommandView> {
        match self.phase {
            ShaderPhaseView::Create => Some(CommandView::CreateShader { stage: self.stage }),
            ShaderPhaseView::Source => Some(
                CommandView::ShaderSource { stage: self.stage, source: self.source },
            ),
            ShaderPhaseView::Compile => Some(CommandView::CompileShader { stage: self.stage }),
            ShaderPhaseView::Status => Some(
                CommandView::GetShaderParameter { stage: self.stage, pname: COMPILE_STATUS },
            ),
            ShaderPhaseView::Log => Some(CommandView::GetShaderInfoLog { stage: self.stage }),
            ShaderPhaseView::Compiled => None,
            ShaderPhaseView::Failed(_) => None,
        }
    }

    /// Whether `reply` is of the kind that answers the pending call.
    pub open spec fn accepts(self, reply: ReplyView) -> bool {
        answers(self.request(), reply)
    }

    /// The phase that follows when `reply` answers the pending call. A reply
    /// of another kind changes nothing: the call stays pending.
    pub open spec fn next_phase(self, reply: ReplyView) -> ShaderPhaseView {
        match (self.phase, reply) {
            (ShaderPhaseView::Create, ReplyView::Presence(present)) => if present {
                ShaderPhaseView::Source
            } else {
                ShaderPhaseView::Failed(GlErrorView::ShaderCreation)
            },
            (ShaderPhaseView::Source, ReplyView::Done) => ShaderPhaseView::Compile,
            (ShaderPhaseView::Compile, ReplyView::Done) => ShaderPhaseView::Status,
            (ShaderPhaseView::Status, ReplyView::Flag(flag)) => if flag == Some(true) {
                ShaderPhaseView::Compiled
            } else {
                ShaderPhaseView::Log
            },
            (ShaderPhaseView::Log, ReplyView::Log(log)) => ShaderPhaseView::Failed(
                GlErrorView::ShaderCompile(diagnostic(log, unknown_shader_error())),
            ),
            (phase, _) => phase,
        }
    }

    /// The task after the host answered with `reply`.
    pub open spec fn advance(self, reply: ReplyView) -> ShaderTaskView {
        ShaderTaskView { phase: self.next_phase(reply), ..self }
    }

    /// How the task ended, or `None` while a call is pending.
    pub open spec fn outcome(self) -> Option<Result<(), GlErrorView>> {
        match self.phase {
            ShaderPhaseView::Compiled => Some(Ok(())),
            ShaderPhaseView::Failed(error) => Some(Err(error)),
            _ => None,
        }
    }

    /// The task after the host gave `replies`, one after the other.
    pub open spec fn run(self, replies: Seq<ReplyView>) -> ShaderTaskView
        decreases replies.len(),
    {
        if replies.len() == 0 {
            self
        } else {
            self.run(replies.drop_last()).advance(replies.last())
        }
    }

    /// A failure, where there is one, is one that compiling a shader can
    /// end in, and its log has text.
    pub open spec fn wf(self) -> bool {
        match self.phase {
            ShaderPhaseView::Failed(error) => {
                &&& error is ShaderCreation || error is ShaderCompile
                &&& error.wf()
            },
            _ => true,
        }
    }
}

impl ShaderTask {
    /// A task that will compile `source` as the shader of `stage`.
    pub fn new(stage: ShaderStage, source: &str) -> (task: ShaderTask)
        ensures
            task@ == ShaderTaskView::start(stage, source@),
            task@.wf(),
    {
        ShaderTask { stage, source: source.to_owned(), phase: ShaderPhase::Create }
    }

    /// The call for the host to make now, or `None` once the task has ended.
    pub fn request(&self) -> (command: Option<Command>)
        ensures
            pending_view(command) == self@.request(),
    {
        match &self.phase {
            ShaderPhase::Create => Some(Command::CreateShader { stage: self.stage }),
            ShaderPhase::Source => Some(
                Command::ShaderSource { stage: self.stage, source: self.source.clone() },
            ),
            ShaderPhase::Compile => Some(Command::CompileShader { stage: self.stage }),
            ShaderPhase::Status => Some(
                Command::GetShaderParameter { stage: self.stage, pname: webgl_compile_status() },
            ),
            ShaderPhase::Log => Some(Command::GetShaderInfoLog { stage: self.stage }),
            ShaderPhase::Compiled => None,
            ShaderPhase::Failed(_) => None,
        }
    }

    /// Whether the task has ended, in success or in failure.
    pub fn is_finished(&self) -> (finished: bool)
        ensures
            finished == self@.outcome().is_some(),
            finished == self@.request().is_none(),
    {
        match &self.phase {
            ShaderPhase::Compiled => true,
            ShaderPhase::Failed(_) => true,
            _ => false,
        }
    }

    /// Whether the shader compiled.
    pub fn is_compiled(&self) -> (compiled: bool)
        ensures
            compiled == (self@.outcome() == Some(Ok::<(), GlErrorView>(()))),
    {
        match &self.phase {
            ShaderPhase::Compiled => true,
            _ => false,
        }
    }

    /// How the task ended, or `None` while a call is pending.
    pub fn into_outcome(self) -> (end: Option<Result<(), GlError>>)
        ensures
            outcome_view(end) == self@.outcome(),
    {
        match self.phase {
            ShaderPhase::Compiled => Some(Ok(())),
            ShaderPhase::Failed(error) => Some(Err(error)),
            _ => None,
        }
    }
}

/// Takes the host's answer to the call that `task` waits on and moves the
/// task on: to the next call, to `Compiled` when the compile flag is
/// `true`, to `ShaderCreation` when no object was created, or to
/// `ShaderCompile` with the log (or the fallback text) when the flag was
/// anything else. Returns the task as it now stands and the call to make
/// next.
pub fn create_shader(task: ShaderTask, reply: Reply) -> (next: (ShaderTask, Option<Command>))
    ensures
        next.0@ == task@.advance(reply@),
        pending_view(next.1) == next.0@.request(),
        task@.wf() ==> next.0@.wf(),
{
    proof {
        if task@.wf() {
            lemma_shader_advance_wf(task@, reply@);
        }
    }
    let ShaderTask { stage, source, phase } = task;
    let phase = match phase {
        ShaderPhase::Create => match reply {
            Reply::Presence(true) => ShaderPhase::Source,
            Reply::Presence(false) => ShaderPhase::Failed(GlError::ShaderCreation),
            _ => ShaderPhase::Create,
        },
        ShaderPhase::Source => match reply {
            Reply::Done => ShaderPhase::Compile,
            _ => ShaderPhase::Source,
        },
        ShaderPhase::Compile => match reply {
            Reply::Done => ShaderPhase::Status,
            _ => ShaderPhase::Compile,
        },
        ShaderPhase::Status => match reply {
            Reply::Flag(Some(true)) => ShaderPhase::Compiled,
            Reply::Flag(_) => ShaderPhase::Log,
            _ => ShaderPhase::Status,
        },
        ShaderPhase::Log => match reply {
            Reply::Log(log) => ShaderPhase::Failed(
                GlError::ShaderCompile(diagnostic_text(log, "Unknown error creating shader")),
            ),
            _ => ShaderPhase::Log,
        },
        ShaderPhase::Compiled => ShaderPhase::Compiled,
        ShaderPhase::Failed(error) => ShaderPhase::Failed(error),
    };
    let next = ShaderTask { stage, source, phase };
    let command = next.request();
    (next, command)
}

/// A call is pending exactly while the task has not ended.
pub proof fn lemma_shader_request_or_outcome(task: ShaderTaskView)
    ensures
        task.request().is_some() <==> task.outcome().is_none(),
{
}

/// A task that has ended stays as it is, whatever the host says.
pub proof fn lemma_shader_end_is_final(task: ShaderTaskView, replies: Seq<ReplyView>)
    requires
        task.outcome().is_some(),
    ensures
        task.run(replies) == task,
    decreases replies.len(),
{
    if replies.len() > 0 {
        lemma_shader_end_is_final(task, replies.drop_last());
    }
}

/// A reply of a kind that does not answer the pending call changes nothing.
pub proof fn lemma_shader_ignores_other_replies(task: ShaderTaskView, reply: ReplyView)
    requires
        !task.accepts(reply),
    ensures
        task.advance(reply) == task,
{
}

/// When the compile flag is read as `true` the shader is compiled, and on
/// any other flag the log is asked for.
pub proof fn lemma_compile_flag_decides(task: ShaderTaskView, flag: Option<bool>)
    requires
        task.phase is Status,
    ensures
        flag == Some(true) ==> task.advance(ReplyView::Flag(flag)).outcome() == Some(
            Ok::<(), GlErrorView>(()),
        ),
        flag != Some(true) ==> task.advance(ReplyView::Flag(flag)).request() == Some(
            CommandView::GetShaderInfoLog { stage: task.stage },
        ),
{
}

/// Whatever log the host reports for a shader that did not compile, the
/// task fails with `ShaderCompile` and a text that is not empty.
pub proof fn lemma_compile_failure_has_text(task: ShaderTaskView, log: Option<Seq<char>>)
    requires
        task.phase is Log,
    ensures
        task.advance(ReplyView::Log(log)).outcome() == Some(
            Err::<(), GlErrorView>(
                GlErrorView::ShaderCompile(diagnostic(log, unknown_shader_error())),
            ),
        ),
        diagnostic(log, unknown_shader_error()).len() > 0,
{
    lemma_fallbacks_nonempty();
    lemma_diagnostic_nonempty(log, unknown_shader_error());
}

/// One answer keeps a well-formed task well formed.
pub proof fn lemma_shader_advance_wf(task: ShaderTaskView, reply: ReplyView)
    requires
        task.wf(),
    ensures
        task.advance(reply).wf(),
{
    lemma_fallbacks_nonempty();
}

/// However the host answers, a well-formed task fails only with
/// `ShaderCreation` or with `ShaderCompile` and a text that is not empty,
/// and it keeps its stage and its source.
pub proof fn lemma_shader_run_wf(task: ShaderTaskView, replies: Seq<ReplyView>)
    requires
        task.wf(),
    ensures
        task.run(replies).wf(),
        task.run(replies).stage == task.stage,
        task.run(replies).source == task.source,
    decreases replies.len(),
{
    if replies.len() > 0 {
        lemma_shader_run_wf(task, replies.drop_last());
        lemma_shader_advance_wf(task.run(replies.drop_last()), replies.last());
    }
}

} // verus!
