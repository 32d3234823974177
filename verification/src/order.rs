//! The order of the calls of a drawing, whatever the host answers.

use vstd::prelude::*;
use crate::codes::{ShaderStage, ARRAY_BUFFER, COMPILE_STATUS, LINK_STATUS};
use crate::command::{CommandView, ReplyView};
use crate::context::ContextPhaseView;
use crate::draw::{lemma_draw_advance_wf, DrawPhaseView, DrawTaskView};
use crate::program::{ProgramPhaseView, FRAGMENT_SOURCE, VERTEX_SOURCE};
use crate::scalar::{chosen_color, triangle_vertices};
use crate::script::{context_calls, link_calls, paint_calls, shader_calls, successful_calls};
use crate::script::{successful_replies, vertex_calls};
use crate::shader::ShaderPhaseView;
use crate::vertices::VertexPhase;

verus! {

/// The call that reads the log after `call`, where `call` reads a compile
/// flag or the link flag.
pub open spec fn log_call_after(call: CommandView) -> Option<CommandView> {
    match call {
        CommandView::GetShaderParameter { stage, .. } => Some(
            CommandView::GetShaderInfoLog { stage },
        ),
        CommandView::GetProgramParameter { .. } => Some(CommandView::GetProgramInfoLog),
        _ => None,
    }
}

/// Whether `calls` goes the way of `script`: the same call for call, from
/// the first on, but that the last may be the reading of a log, right
/// after the reading of the flag as the script has it.
pub open spec fn follows_script(calls: Seq<CommandView>, script: Seq<CommandView>) -> bool {
    &&& calls.len() <= script.len()
    &&& forall|i: int|
        0 <= i < calls.len() ==> {
            ||| #[trigger] calls[i] == script[i]
            ||| {
                &&& i == calls.len() - 1
                &&& i >= 1
                &&& calls[i - 1] == script[i - 1]
                &&& log_call_after(script[i - 1]) == Some(calls[i])
            }
        }
}

/// What the host has reported of the canvas and of the program.
pub struct Seen {
    /// The width of the canvas in pixels.
    pub width: nat,
    /// The height of the canvas in pixels.
    pub height: nat,
    /// The location of the position attribute.
    pub location: i32,
}

/// What is known when `reply` has come to `task`: a size or a location
/// that answers the pending call takes the place of the one in `seen`.
pub open spec fn seen_after(task: DrawTaskView, reply: ReplyView, seen: Seen) -> Seen {
    if task.accepts(reply) {
        match reply {
            ReplyView::Size { width, height } => Seen { width, height, ..seen },
            ReplyView::Location(location) => Seen { location, ..seen },
            _ => seen,
        }
    } else {
        seen
    }
}

impl DrawTaskView {
    /// The size of the canvas and the location of the attribute as the
    /// host reported them among `replies`, each zero until it is reported.
    pub open spec fn seen(self, replies: Seq<ReplyView>) -> Seen
        decreases replies.len(),
    {
        if replies.len() == 0 {
            Seen { width: 0, height: 0, location: 0 }
        } else {
            seen_after(
                self.run(replies.drop_last()),
                replies.last(),
                self.seen(replies.drop_last()),
            )
        }
    }
}

impl ShaderPhaseView {
    /// How many calls for the shader have been answered in this phase.
    pub open spec fn position(self) -> nat {
        match self {
            ShaderPhaseView::Create => 0,
            ShaderPhaseView::Source => 1,
            ShaderPhaseView::Compile => 2,
            ShaderPhaseView::Status => 3,
            _ => 4,
        }
    }
}

impl DrawTaskView {
    /// How many calls of the script have been answered when the drawing
    /// stands as it does.
    pub open spec fn position(self) -> nat {
        match self.phase {
            DrawPhaseView::Context(task) => match task.phase {
                ContextPhaseView::Canvas => 0,
                ContextPhaseView::Context => 1,
                ContextPhaseView::Size => 2,
                _ => 3,
            },
            DrawPhaseView::Program(task) => match task.phase {
                ProgramPhaseView::Vertex(shader) => 4 + shader.phase.position(),
                ProgramPhaseView::Fragment(shader) => 8 + shader.phase.position(),
                ProgramPhaseView::Create => 12,
                ProgramPhaseView::AttachVertex => 13,
                ProgramPhaseView::AttachFragment => 14,
                ProgramPhaseView::Link => 15,
                ProgramPhaseView::Status => 16,
                _ => 17,
            },
            DrawPhaseView::Vertices(task) => 18 + task.phase.position(),
            DrawPhaseView::Uniform => 25,
            DrawPhaseView::Color => 26,
            DrawPhaseView::Draw => 27,
            _ => 28,
        }
    }

    /// Whether the drawing waits for a log.
    pub open spec fn reads_log(self) -> bool {
        match self.phase {
            DrawPhaseView::Program(task) => match task.phase {
                ProgramPhaseView::Vertex(shader) => shader.phase is Log,
                ProgramPhaseView::Fragment(shader) => shader.phase is Log,
                ProgramPhaseView::Log => true,
                _ => false,
            },
            _ => false,
        }
    }
}

/// The script, call by call.
proof fn lemma_script_entries(
    canvas_id: Seq<char>,
    selected: Option<Seq<u32>>,
    width: nat,
    height: nat,
    location: i32,
)
    ensures
        ({
            let script = successful_calls(canvas_id, selected, width, height, location);
            let a = context_calls(canvas_id, width, height);
            let b = shader_calls(ShaderStage::Vertex, VERTEX_SOURCE@);
            let c = shader_calls(ShaderStage::Fragment, FRAGMENT_SOURCE@);
            let d = link_calls();
            let e = vertex_calls(triangle_vertices(), location);
            let f = paint_calls(chosen_color(selected));
            &&& script.len() == 28
            &&& forall|i: int| 0 <= i < 4 ==> script[i] == a[i]
            &&& forall|i: int| 4 <= i < 8 ==> script[i] == b[i - 4]
            &&& forall|i: int| 8 <= i < 12 ==> script[i] == c[i - 8]
            &&& forall|i: int| 12 <= i < 18 ==> script[i] == d[i - 12]
            &&& forall|i: int| 18 <= i < 25 ==> script[i] == e[i - 18]
            &&& forall|i: int| 25 <= i < 28 ==> script[i] == f[i - 25]
        }),
{
}

/// What holds of a drawing and of the calls answered so far, when the
/// canvas was seen with the given size and the attribute at the given
/// location: the calls follow the script, and while the drawing goes on
/// without reading a log they are the script's first calls and the
/// pending call is the script's next.
spec fn in_step(
    task: DrawTaskView,
    calls: Seq<CommandView>,
    canvas_id: Seq<char>,
    selected: Option<Seq<u32>>,
    width: nat,
    height: nat,
    location: i32,
) -> bool {
    let script = successful_calls(canvas_id, selected, width, height, location);
    &&& task.wf()
    &&& task.color == chosen_color(selected)
    &&& follows_script(calls, script)
    &&& task.outcome() is None ==> {
        &&& calls.len() == task.position()
        &&& forall|i: int| 0 <= i < calls.len() ==> calls[i] == script[i]
        &&& task.reads_log() ==> task.request() == log_call_after(script[task.position() - 1])
        &&& !task.reads_log() ==> task.request() == Some(script[task.position() as int])
        &&& match task.phase {
            DrawPhaseView::Context(part) => part.canvas_id == canvas_id,
            DrawPhaseView::Vertices(part) => match part.phase {
                VertexPhase::Rebind { location: found } => found == location,
                VertexPhase::Pointer { location: found } => found == location,
                VertexPhase::Enable { location: found } => found == location,
                _ => true,
            },
            _ => true,
        }
    }
}

/// The first calls of the script do not depend on the size of the canvas,
/// and all before the attribute is pointed at the buffer do not depend on
/// its location.
proof fn lemma_script_prefixes(
    canvas_id: Seq<char>,
    selected: Option<Seq<u32>>,
    width: nat,
    height: nat,
    location: i32,
    other_width: nat,
    other_height: nat,
    other_location: i32,
)
    ensures
        ({
            let script = successful_calls(canvas_id, selected, width, height, location);
            let resized = successful_calls(
                canvas_id,
                selected,
                other_width,
                other_height,
                location,
            );
            let moved = successful_calls(canvas_id, selected, width, height, other_location);
            &&& forall|i: int| 0 <= i < 3 ==> script[i] == resized[i]
            &&& forall|i: int| 0 <= i < 23 ==> script[i] == moved[i]
        }),
{
    lemma_script_entries(canvas_id, selected, width, height, location);
    lemma_script_entries(canvas_id, selected, other_width, other_height, location);
    lemma_script_entries(canvas_id, selected, width, height, other_location);
}

/// One more reply keeps a drawing in step.
proof fn lemma_reply_keeps_in_step(
    task: DrawTaskView,
    calls: Seq<CommandView>,
    reply: ReplyView,
    canvas_id: Seq<char>,
    selected: Option<Seq<u32>>,
    before: Seen,
)
    requires
        in_step(task, calls, canvas_id, selected, before.width, before.height, before.location),
    ensures
        ({
            let seen = seen_after(task, reply, before);
            let answered = if task.accepts(reply) {
                calls.push(task.request()->Some_0)
            } else {
                calls
            };
            in_step(
                task.advance(reply),
                answered,
                canvas_id,
                selected,
                seen.width,
                seen.height,
                seen.location,
            )
        }),
{
    let width = before.width;
    let height = before.height;
    let location = before.location;
    let seen = seen_after(task, reply, before);
    let script = successful_calls(canvas_id, selected, width, height, location);
    let next_script = successful_calls(
        canvas_id,
        selected,
        seen.width,
        seen.height,
        seen.location,
    );
    lemma_script_entries(canvas_id, selected, width, height, location);
    lemma_script_entries(canvas_id, selected, seen.width, seen.height, seen.location);
    lemma_script_prefixes(
        canvas_id,
        selected,
        width,
        height,
        location,
        seen.width,
        seen.height,
        seen.location,
    );
    lemma_draw_advance_wf(task, reply);
    let next = task.advance(reply);
    let pos = task.position() as int;
    if task.accepts(reply) {
        let answered = calls.push(task.request()->Some_0);
        assert(task.outcome() is None);
        assert(task.request() is Some);
        assert forall|i: int| 0 <= i < pos implies answered[i] == next_script[i] by {
            assert(answered[i] == calls[i]);
            assert(calls[i] == script[i]);
        }
        if task.reads_log() {
            assert(next.outcome() is Some);
            assert(seen == before);
            assert(follows_script(answered, next_script));
            assert(in_step(
                next,
                answered,
                canvas_id,
                selected,
                seen.width,
                seen.height,
                seen.location,
            ));
        } else {
            assert(answered[pos] == script[pos]);
            assert(script[pos] == next_script[pos]);
            assert forall|i: int| 0 <= i < answered.len() implies answered[i]
                == next_script[i] by {}
            assert(follows_script(answered, next_script));
            if next.outcome() is None {
                assert(next.position() == pos + 1);
                assert(answered.len() == next.position());
                if next.reads_log() {
                    assert(next.request() == log_call_after(next_script[pos]));
                } else {
                    assert(next.request() == Some(next_script[pos + 1]));
                }
            }
            assert(in_step(
                next,
                answered,
                canvas_id,
                selected,
                seen.width,
                seen.height,
                seen.location,
            ));
        }
    } else {
        assert(next == task);
        assert(seen == before);
        assert(in_step(next, calls, canvas_id, selected, seen.width, seen.height, seen.location));
    }
}

/// A drawing is in step however the host answers.
proof fn lemma_run_in_step(canvas_id: Seq<char>, selected: Option<Seq<u32>>, replies: Seq<ReplyView>)
    ensures
        ({
            let start = DrawTaskView::start(canvas_id, selected);
            let seen = start.seen(replies);
            in_step(
                start.run(replies),
                start.answered_calls(replies),
                canvas_id,
                selected,
                seen.width,
                seen.height,
                seen.location,
            )
        }),
    decreases replies.len(),
{
    let start = DrawTaskView::start(canvas_id, selected);
    if replies.len() == 0 {
        lemma_script_entries(canvas_id, selected, 0, 0, 0);
    } else {
        let earlier = replies.drop_last();
        lemma_run_in_step(canvas_id, selected, earlier);
        lemma_reply_keeps_in_step(
            start.run(earlier),
            start.answered_calls(earlier),
            replies.last(),
            canvas_id,
            selected,
            start.seen(earlier),
        );
    }
}

/// The script has twenty-eight calls, and as many replies go with it.
pub proof fn lemma_script_length(
    canvas_id: Seq<char>,
    selected: Option<Seq<u32>>,
    width: nat,
    height: nat,
    location: i32,
)
    ensures
        successful_calls(canvas_id, selected, width, height, location).len() == 28,
        successful_replies(width, height, location).len() == 28,
{
    lemma_script_entries(canvas_id, selected, width, height, location);
}

/// Whatever the host answers, the calls of a drawing are the first calls
/// of the script of a successful drawing, in the script's order, with the
/// viewport at the size that the host reported for the canvas and the
/// attribute at the location that it reported. The one call that the
/// script does not have is the reading of a log, and it can only come
/// last, right after the reading of the flag. So no shader is attached
/// before both have compiled, no program is made current before it has
/// linked, and the attribute is pointed at the buffer after the buffer is
/// bound and before the attribute array is switched on.
pub proof fn lemma_calls_follow_script(
    canvas_id: Seq<char>,
    selected: Option<Seq<u32>>,
    replies: Seq<ReplyView>,
)
    ensures
        ({
            let start = DrawTaskView::start(canvas_id, selected);
            let seen = start.seen(replies);
            follows_script(
                start.answered_calls(replies),
                successful_calls(canvas_id, selected, seen.width, seen.height, seen.location),
            )
        }),
{
    lemma_run_in_step(canvas_id, selected, replies);
}

/// Where a call stands among the calls of a drawing, whatever the host
/// answered: the viewport is set as the fourth call, right after the size
/// of the canvas was read, and to exactly that size, from the origin; the
/// program is linked as the sixteenth call, after the
/// compile flags of both shaders were read and both shaders attached; it
/// is made current as the eighteenth, right after its link flag was read;
/// the attribute is pointed at the buffer as the twenty-fourth, after the
/// buffer was filled and bound; and the attribute array is switched on
/// right after that.
pub proof fn lemma_order_of_calls(
    canvas_id: Seq<char>,
    selected: Option<Seq<u32>>,
    replies: Seq<ReplyView>,
    k: int,
)
    requires
        0 <= k < DrawTaskView::start(canvas_id, selected).answered_calls(replies).len(),
    ensures
        ({
            let calls = DrawTaskView::start(canvas_id, selected).answered_calls(replies);
            let seen = DrawTaskView::start(canvas_id, selected).seen(replies);
            &&& calls[k] is Viewport ==> {
                &&& k == 3
                &&& calls[2] == CommandView::GetCanvasSize
                &&& calls[k] == CommandView::Viewport {
                    x: 0,
                    y: 0,
                    width: seen.width as int,
                    height: seen.height as int,
                }
            }
            &&& calls[k] is LinkProgram ==> {
                &&& k == 15
                &&& calls[7] == CommandView::GetShaderParameter {
                    stage: ShaderStage::Vertex,
                    pname: COMPILE_STATUS,
                }
                &&& calls[11] == CommandView::GetShaderParameter {
                    stage: ShaderStage::Fragment,
                    pname: COMPILE_STATUS,
                }
                &&& calls[12] == CommandView::CreateProgram
                &&& calls[13] == CommandView::AttachShader { stage: ShaderStage::Vertex }
                &&& calls[14] == CommandView::AttachShader { stage: ShaderStage::Fragment }
            }
            &&& calls[k] is UseProgram ==> {
                &&& k == 17
                &&& calls[15] == CommandView::LinkProgram
                &&& calls[16] == CommandView::GetProgramParameter { pname: LINK_STATUS }
            }
            &&& calls[k] is VertexAttribPointer ==> {
                &&& k == 23
                &&& calls[17] == CommandView::UseProgram
                &&& calls[20] is BufferData
                &&& calls[22] == CommandView::BindBuffer { target: ARRAY_BUFFER }
            }
            &&& calls[k] is EnableVertexAttribArray ==> {
                &&& k == 24
                &&& calls[23] is VertexAttribPointer
            }
            &&& calls[k] is DrawArrays ==> {
                &&& k == 27
                &&& calls[24] is EnableVertexAttribArray
                &&& calls[26] == CommandView::Uniform4fv { data: chosen_color(selected) }
            }
        }),
{
    let calls = DrawTaskView::start(canvas_id, selected).answered_calls(replies);
    let seen = DrawTaskView::start(canvas_id, selected).seen(replies);
    lemma_calls_follow_script(canvas_id, selected, replies);
    lemma_script_entries(canvas_id, selected, seen.width, seen.height, seen.location);
    let script = successful_calls(canvas_id, selected, seen.width, seen.height, seen.location);
    assert(calls[k] == script[k] || log_call_after(script[k - 1]) == Some(calls[k]));
    assert forall|i: int| 0 <= i < k implies calls[i] == script[i] by {
        assert(calls[i] == script[i] || i == calls.len() - 1);
    }
}

/// Nothing is made or drawn twice: in the calls of a drawing, whatever the
/// host answered, each shader, the program and the buffer are created
/// once, the buffer is filled once, the color is set once, and there is
/// one draw.
pub proof fn lemma_made_once(
    canvas_id: Seq<char>,
    selected: Option<Seq<u32>>,
    replies: Seq<ReplyView>,
    i: int,
    j: int,
)
    requires
        0 <= i < DrawTaskView::start(canvas_id, selected).answered_calls(replies).len(),
        0 <= j < DrawTaskView::start(canvas_id, selected).answered_calls(replies).len(),
        ({
            let calls = DrawTaskView::start(canvas_id, selected).answered_calls(replies);
            &&& calls[i] == calls[j]
            &&& {
                ||| calls[i] is CreateShader
                ||| calls[i] is CreateProgram
                ||| calls[i] is CreateBuffer
                ||| calls[i] is BufferData
                ||| calls[i] is Uniform4fv
                ||| calls[i] is DrawArrays
            }
        }),
    ensures
        i == j,
{
    let calls = DrawTaskView::start(canvas_id, selected).answered_calls(replies);
    let seen = DrawTaskView::start(canvas_id, selected).seen(replies);
    lemma_calls_follow_script(canvas_id, selected, replies);
    lemma_script_entries(canvas_id, selected, seen.width, seen.height, seen.location);
    let script = successful_calls(canvas_id, selected, seen.width, seen.height, seen.location);
    assert(calls[i] == script[i] || log_call_after(script[i - 1]) == Some(calls[i]));
    assert(calls[j] == script[j] || log_call_after(script[j - 1]) == Some(calls[j]));
}

/// Whether the host gave each reply in the kind that answers the call
/// that was pending when the reply came.
pub open spec fn answers_in_kind(start: DrawTaskView, replies: Seq<ReplyView>) -> bool {
    forall|i: int|
        0 <= i < replies.len() ==> (#[trigger] start.run(replies.take(i))).outcome() is Some
            || start.run(replies.take(i)).accepts(replies[i])
}

/// While a drawing goes on with a host that answers in kind, every reply
/// has answered a call.
proof fn lemma_every_reply_answers(
    canvas_id: Seq<char>,
    selected: Option<Seq<u32>>,
    replies: Seq<ReplyView>,
)
    requires
        answers_in_kind(DrawTaskView::start(canvas_id, selected), replies),
        DrawTaskView::start(canvas_id, selected).run(replies).outcome() is None,
    ensures
        DrawTaskView::start(canvas_id, selected).answered_calls(replies).len() == replies.len(),
    decreases replies.len(),
{
    let start = DrawTaskView::start(canvas_id, selected);
    if replies.len() > 0 {
        let earlier = replies.drop_last();
        assert(replies.take(earlier.len() as int) =~= earlier);
        assert forall|i: int| 0 <= i < earlier.len() implies (#[trigger] start.run(
            earlier.take(i),
        )).outcome() is Some || start.run(earlier.take(i)).accepts(earlier[i]) by {
            assert(earlier.take(i) =~= replies.take(i));
        }
        lemma_every_reply_answers(canvas_id, selected, earlier);
    }
}

/// A host that answers every call in kind brings a drawing to its end
/// with at most twenty-eight replies: the loop that hands calls to such a
/// host and replies back always comes to an end.
pub proof fn lemma_drawing_ends(
    canvas_id: Seq<char>,
    selected: Option<Seq<u32>>,
    replies: Seq<ReplyView>,
)
    requires
        answers_in_kind(DrawTaskView::start(canvas_id, selected), replies),
        replies.len() >= 28,
    ensures
        DrawTaskView::start(canvas_id, selected).run(replies).outcome() is Some,
{
    let start = DrawTaskView::start(canvas_id, selected);
    if start.run(replies).outcome() is None {
        lemma_every_reply_answers(canvas_id, selected, replies);
        lemma_run_in_step(canvas_id, selected, replies);
    }
}

} // verus!
