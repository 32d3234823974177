//! What a drawing that meets no failure asks of the host, from its first
//! call to its last.

use vstd::prelude::*;
use crate::codes::{ShaderStage, ARRAY_BUFFER, COMPILE_STATUS, FLOAT, LINK_STATUS};
use crate::codes::{STATIC_DRAW, TRIANGLES};
use crate::command::{CommandView, ReplyView};
use crate::context::{context_kind, ContextTaskView};
use crate::draw::{color_uniform, DrawPhaseView, DrawTaskView};
use crate::error::GlErrorView;
use crate::history::{lemma_answer, lemma_answers_in_two_lots};
use crate::program::{ProgramPhaseView, ProgramTaskView, FRAGMENT_SOURCE, VERTEX_SOURCE};
use crate::scalar::{chosen_color, triangle_vertices};
use crate::shader::ShaderTaskView;
use crate::vertices::{attribute_index_of, position_attribute, VertexTaskView};

verus! {

/// The calls that get a context for the canvas named `canvas_id`.
pub open spec fn context_calls(canvas_id: Seq<char>, width: nat, height: nat) -> Seq<CommandView> {
    seq![
        CommandView::GetCanvas { id: canvas_id },
        CommandView::GetContext { kind: context_kind() },
        CommandView::GetCanvasSize,
        CommandView::Viewport { x: 0, y: 0, width: width as int, height: height as int },
    ]
}

/// What the host says to them when the canvas is there, has a context,
/// and is `width` by `height` pixels.
pub open spec fn context_replies(width: nat, height: nat) -> Seq<ReplyView> {
    seq![
        ReplyView::Presence(true),
        ReplyView::Presence(true),
        ReplyView::Size { width, height },
        ReplyView::Done,
    ]
}

/// The calls that compile `source` as the shader of `stage`.
pub open spec fn shader_calls(stage: ShaderStage, source: Seq<char>) -> Seq<CommandView> {
    seq![
        CommandView::CreateShader { stage },
        CommandView::ShaderSource { stage, source },
        CommandView::CompileShader { stage },
        CommandView::GetShaderParameter { stage, pname: COMPILE_STATUS },
    ]
}

/// What the host says to them when the shader compiles.
pub open spec fn shader_replies() -> Seq<ReplyView> {
    seq![
        ReplyView::Presence(true),
        ReplyView::Done,
        ReplyView::Done,
        ReplyView::Flag(Some(true)),
    ]
}

/// The calls that link the two compiled shaders and make the program
/// current.
pub open spec fn link_calls() -> Seq<CommandView> {
    seq![
        CommandView::CreateProgram,
        CommandView::AttachShader { stage: ShaderStage::Vertex },
        CommandView::AttachShader { stage: ShaderStage::Fragment },
        CommandView::LinkProgram,
        CommandView::GetProgramParameter { pname: LINK_STATUS },
        CommandView::UseProgram,
    ]
}

/// What the host says to them when the program links.
pub open spec fn link_replies() -> Seq<ReplyView> {
    seq![
        ReplyView::Presence(true),
        ReplyView::Done,
        ReplyView::Done,
        ReplyView::Done,
        ReplyView::Flag(Some(true)),
        ReplyView::Done,
    ]
}

/// The calls that hand `vertices` to the program when its position
/// attribute is at `location`.
pub open spec fn vertex_calls(vertices: Seq<u32>, location: i32) -> Seq<CommandView> {
    seq![
        CommandView::CreateBuffer,
        CommandView::BindBuffer { target: ARRAY_BUFFER },
        CommandView::BufferData { target: ARRAY_BUFFER, data: vertices, usage: STATIC_DRAW },
        CommandView::GetAttribLocation { name: position_attribute() },
        CommandView::BindBuffer { target: ARRAY_BUFFER },
        CommandView::VertexAttribPointer {
            index: attribute_index_of(location as int) as u32,
            size: 3,
            component: FLOAT,
            normalized: false,
            stride: 0,
            offset: 0,
        },
        CommandView::EnableVertexAttribArray { index: attribute_index_of(location as int) as u32 },
    ]
}

/// What the host says to them when the position attribute is at
/// `location`.
pub open spec fn vertex_replies(location: i32) -> Seq<ReplyView> {
    seq![
        ReplyView::Done,
        ReplyView::Done,
        ReplyView::Done,
        ReplyView::Location(location),
        ReplyView::Done,
        ReplyView::Done,
        ReplyView::Done,
    ]
}

/// The calls that set `color` and draw the triangle.
pub open spec fn paint_calls(color: Seq<u32>) -> Seq<CommandView> {
    seq![
        CommandView::GetUniformLocation { name: color_uniform() },
        CommandView::Uniform4fv { data: color },
        CommandView::DrawArrays { mode: TRIANGLES, first: 0, count: 3 },
    ]
}

/// What the host says to them when the program has the color uniform.
pub open spec fn paint_replies() -> Seq<ReplyView> {
    seq![ReplyView::Presence(true), ReplyView::Done, ReplyView::Done]
}

/// The calls of a drawing that meets no failure, from the first to the
/// last: the context, the vertex shader, the fragment shader, the link,
/// the vertices of the triangle, and the color and the draw.
pub open spec fn successful_calls(
    canvas_id: Seq<char>,
    selected: Option<Seq<u32>>,
    width: nat,
    height: nat,
    location: i32,
) -> Seq<CommandView> {
    context_calls(canvas_id, width, height) + shader_calls(ShaderStage::Vertex, VERTEX_SOURCE@)
        + shader_calls(ShaderStage::Fragment, FRAGMENT_SOURCE@) + link_calls() + vertex_calls(
        triangle_vertices(),
        location,
    ) + paint_calls(chosen_color(selected))
}

/// What the host says, call by call, when everything is there and both
/// compile flags and the link flag are `true`.
pub open spec fn successful_replies(width: nat, height: nat, location: i32) -> Seq<ReplyView> {
    context_replies(width, height) + shader_replies() + shader_replies() + link_replies()
        + vertex_replies(location) + paint_replies()
}

/// With a canvas that is there and has a context, a drawing that is about
/// to look up the canvas makes the four calls for the context and then
/// turns to the program.
pub proof fn lemma_context_part(task: DrawTaskView, canvas_id: Seq<char>, width: nat, height: nat)
    requires
        task.phase == DrawPhaseView::Context(ContextTaskView::start(canvas_id)),
    ensures
        task.run(context_replies(width, height)) == (DrawTaskView {
            phase: DrawPhaseView::Program(ProgramTaskView::start()),
            ..task
        }),
        task.answered_calls(context_replies(width, height)) == context_calls(
            canvas_id,
            width,
            height,
        ),
{
    let told = Seq::<ReplyView>::empty();
    lemma_answer(task, told, ReplyView::Presence(true));
    let told = told.push(ReplyView::Presence(true));
    lemma_answer(task, told, ReplyView::Presence(true));
    let told = told.push(ReplyView::Presence(true));
    lemma_answer(task, told, ReplyView::Size { width, height });
    let told = told.push(ReplyView::Size { width, height });
    lemma_answer(task, told, ReplyView::Done);
    let told = told.push(ReplyView::Done);
    assert(told =~= context_replies(width, height));
    assert(task.answered_calls(told) =~= context_calls(canvas_id, width, height));
}

/// With a vertex shader that compiles, a drawing that is about to create
/// it makes the four calls for it and then turns to the fragment shader.
pub proof fn lemma_vertex_shader_part(task: DrawTaskView)
    requires
        task.phase == DrawPhaseView::Program(ProgramTaskView::start()),
    ensures
        task.run(shader_replies()) == (DrawTaskView {
            phase: DrawPhaseView::Program(
                ProgramTaskView {
                    phase: ProgramPhaseView::Fragment(
                        ShaderTaskView::start(ShaderStage::Fragment, FRAGMENT_SOURCE@),
                    ),
                },
            ),
            ..task
        }),
        task.answered_calls(shader_replies()) == shader_calls(
            ShaderStage::Vertex,
            VERTEX_SOURCE@,
        ),
{
    let told = Seq::<ReplyView>::empty();
    lemma_answer(task, told, ReplyView::Presence(true));
    let told = told.push(ReplyView::Presence(true));
    lemma_answer(task, told, ReplyView::Done);
    let told = told.push(ReplyView::Done);
    lemma_answer(task, told, ReplyView::Done);
    let told = told.push(ReplyView::Done);
    lemma_answer(task, told, ReplyView::Flag(Some(true)));
    let told = told.push(ReplyView::Flag(Some(true)));
    assert(told =~= shader_replies());
    assert(task.answered_calls(told) =~= shader_calls(ShaderStage::Vertex, VERTEX_SOURCE@));
}

/// With a fragment shader that compiles, a drawing that is about to
/// create it makes the four calls for it and then turns to the link.
pub proof fn lemma_fragment_shader_part(task: DrawTaskView)
    requires
        task.phase == DrawPhaseView::Program(
            ProgramTaskView {
                phase: ProgramPhaseView::Fragment(
                    ShaderTaskView::start(ShaderStage::Fragment, FRAGMENT_SOURCE@),
                ),
            },
        ),
    ensures
        task.run(shader_replies()) == (DrawTaskView {
            phase: DrawPhaseView::Program(ProgramTaskView { phase: ProgramPhaseView::Create }),
            ..task
        }),
        task.answered_calls(shader_replies()) == shader_calls(
            ShaderStage::Fragment,
            FRAGMENT_SOURCE@,
        ),
{
    let told = Seq::<ReplyView>::empty();
    lemma_answer(task, told, ReplyView::Presence(true));
    let told = told.push(ReplyView::Presence(true));
    lemma_answer(task, told, ReplyView::Done);
    let told = told.push(ReplyView::Done);
    lemma_answer(task, told, ReplyView::Done);
    let told = told.push(ReplyView::Done);
    lemma_answer(task, told, ReplyView::Flag(Some(true)));
    let told = told.push(ReplyView::Flag(Some(true)));
    assert(told =~= shader_replies());
    assert(task.answered_calls(told) =~= shader_calls(ShaderStage::Fragment, FRAGMENT_SOURCE@));
}

/// With a program that links, a drawing that is about to create it makes
/// the six calls for it and then turns to the vertices of the triangle.
pub proof fn lemma_link_part(task: DrawTaskView)
    requires
        task.phase == DrawPhaseView::Program(ProgramTaskView { phase: ProgramPhaseView::Create }),
    ensures
        task.run(link_replies()) == (DrawTaskView {
            phase: DrawPhaseView::Vertices(VertexTaskView::start(triangle_vertices())),
            ..task
        }),
        task.answered_calls(link_replies()) == link_calls(),
{
    let told = Seq::<ReplyView>::empty();
    lemma_answer(task, told, ReplyView::Presence(true));
    let told = told.push(ReplyView::Presence(true));
    lemma_answer(task, told, ReplyView::Done);
    let told = told.push(ReplyView::Done);
    lemma_answer(task, told, ReplyView::Done);
    let told = told.push(ReplyView::Done);
    lemma_answer(task, told, ReplyView::Done);
    let told = told.push(ReplyView::Done);
    lemma_answer(task, told, ReplyView::Flag(Some(true)));
    let told = told.push(ReplyView::Flag(Some(true)));
    lemma_answer(task, told, ReplyView::Done);
    let told = told.push(ReplyView::Done);
    assert(told =~= link_replies());
    assert(task.answered_calls(told) =~= link_calls());
}

/// A drawing that is about to create the buffer makes the seven calls for
/// the vertices and then turns to the color.
pub proof fn lemma_vertex_part(task: DrawTaskView, location: i32)
    requires
        task.phase == DrawPhaseView::Vertices(VertexTaskView::start(triangle_vertices())),
    ensures
        task.run(vertex_replies(location)) == (DrawTaskView {
            phase: DrawPhaseView::Uniform,
            ..task
        }),
        task.answered_calls(vertex_replies(location)) == vertex_calls(
            triangle_vertices(),
            location,
        ),
{
    let told = Seq::<ReplyView>::empty();
    lemma_answer(task, told, ReplyView::Done);
    let told = told.push(ReplyView::Done);
    lemma_answer(task, told, ReplyView::Done);
    let told = told.push(ReplyView::Done);
    lemma_answer(task, told, ReplyView::Done);
    let told = told.push(ReplyView::Done);
    lemma_answer(task, told, ReplyView::Location(location));
    let told = told.push(ReplyView::Location(location));
    lemma_answer(task, told, ReplyView::Done);
    let told = told.push(ReplyView::Done);
    lemma_answer(task, told, ReplyView::Done);
    let told = told.push(ReplyView::Done);
    lemma_answer(task, told, ReplyView::Done);
    let told = told.push(ReplyView::Done);
    assert(told =~= vertex_replies(location));
    assert(task.answered_calls(told) =~= vertex_calls(triangle_vertices(), location));
}

/// With a program that has the color uniform, a drawing that is about to
/// look it up makes the three calls that color and draw, and is finished.
pub proof fn lemma_paint_part(task: DrawTaskView)
    requires
        task.phase == DrawPhaseView::Uniform,
    ensures
        task.run(paint_replies()) == (DrawTaskView { phase: DrawPhaseView::Finished, ..task }),
        task.answered_calls(paint_replies()) == paint_calls(task.color),
{
    let told = Seq::<ReplyView>::empty();
    lemma_answer(task, told, ReplyView::Presence(true));
    let told = told.push(ReplyView::Presence(true));
    lemma_answer(task, told, ReplyView::Done);
    let told = told.push(ReplyView::Done);
    lemma_answer(task, told, ReplyView::Done);
    let told = told.push(ReplyView::Done);
    assert(told =~= paint_replies());
    assert(task.answered_calls(told) =~= paint_calls(task.color));
}

/// When the host finds everything and reports every flag as `true`, the
/// drawing makes exactly the calls of `successful_calls`, in that order,
/// and ends in success. This holds for every canvas name and size, every
/// color and every attribute location.
pub proof fn lemma_successful_drawing(
    canvas_id: Seq<char>,
    selected: Option<Seq<u32>>,
    width: nat,
    height: nat,
    location: i32,
)
    ensures
        ({
            let start = DrawTaskView::start(canvas_id, selected);
            let replies = successful_replies(width, height, location);
            &&& start.answered_calls(replies) == successful_calls(
                canvas_id,
                selected,
                width,
                height,
                location,
            )
            &&& start.run(replies).outcome() == Some(Ok::<(), GlErrorView>(()))
        }),
{
    let start = DrawTaskView::start(canvas_id, selected);
    let told = context_replies(width, height);
    lemma_context_part(start, canvas_id, width, height);
    lemma_vertex_shader_part(start.run(told));
    lemma_answers_in_two_lots(start, told, shader_replies());
    let told = told + shader_replies();
    lemma_fragment_shader_part(start.run(told));
    lemma_answers_in_two_lots(start, told, shader_replies());
    let told = told + shader_replies();
    lemma_link_part(start.run(told));
    lemma_answers_in_two_lots(start, told, link_replies());
    let told = told + link_replies();
    lemma_vertex_part(start.run(told), location);
    lemma_answers_in_two_lots(start, told, vertex_replies(location));
    let told = told + vertex_replies(location);
    lemma_paint_part(start.run(told));
    lemma_answers_in_two_lots(start, told, paint_replies());
}

} // verus!
