use hello_webgl_wasm::codes::{
    ShaderStage, ARRAY_BUFFER, COMPILE_STATUS, FLOAT, FRAGMENT_SHADER, LINK_STATUS, STATIC_DRAW,
    TRIANGLES, VERTEX_SHADER,
};
use hello_webgl_wasm::{Command, DrawPhase, DrawTask, ProgramPhase, ProgramTask};
use hello_webgl_wasm::{ShaderPhase, ShaderTask, VertexPhase, VertexTask};
use web_sys::WebGlRenderingContext;

#[test]
fn stage_codes_are_those_of_webgl() {
    assert_eq!(ShaderStage::Vertex.code(), 35633);
    assert_eq!(ShaderStage::Fragment.code(), 35632);
    assert_eq!(ShaderStage::Vertex.code(), WebGlRenderingContext::VERTEX_SHADER);
    assert_eq!(ShaderStage::Fragment.code(), WebGlRenderingContext::FRAGMENT_SHADER);
}

#[test]
fn constants_match_web_sys() {
    assert_eq!(VERTEX_SHADER, WebGlRenderingContext::VERTEX_SHADER);
    assert_eq!(FRAGMENT_SHADER, WebGlRenderingContext::FRAGMENT_SHADER);
    assert_eq!(COMPILE_STATUS, WebGlRenderingContext::COMPILE_STATUS);
    assert_eq!(LINK_STATUS, WebGlRenderingContext::LINK_STATUS);
    assert_eq!(ARRAY_BUFFER, WebGlRenderingContext::ARRAY_BUFFER);
    assert_eq!(STATIC_DRAW, WebGlRenderingContext::STATIC_DRAW);
    assert_eq!(FLOAT, WebGlRenderingContext::FLOAT);
    assert_eq!(TRIANGLES, WebGlRenderingContext::TRIANGLES);
}

#[test]
fn stage_from_code_round_trips() {
    assert_eq!(ShaderStage::from_code(35633), Some(ShaderStage::Vertex));
    assert_eq!(ShaderStage::from_code(35632), Some(ShaderStage::Fragment));
    assert_eq!(ShaderStage::from_code(0), None);
    assert_eq!(ShaderStage::from_code(35634), None);
    assert_eq!(ShaderStage::from_code(ShaderStage::Vertex.code()), Some(ShaderStage::Vertex));
    assert_eq!(ShaderStage::from_code(ShaderStage::Fragment.code()), Some(ShaderStage::Fragment));
}

#[test]
fn compile_status_query_carries_its_code() {
    let task = ShaderTask {
        stage: ShaderStage::Fragment,
        source: String::from("void main() {}"),
        phase: ShaderPhase::Status,
    };
    assert_eq!(
        task.request(),
        Some(Command::GetShaderParameter { stage: ShaderStage::Fragment, pname: 35713 })
    );
}

#[test]
fn link_status_query_carries_its_code() {
    let task = ProgramTask { phase: ProgramPhase::Status };
    assert_eq!(task.request(), Some(Command::GetProgramParameter { pname: 35714 }));
}

#[test]
fn buffer_calls_carry_their_codes() {
    let bind = VertexTask { vertices: vec![1, 2, 3], phase: VertexPhase::Bind };
    assert_eq!(bind.request(), Some(Command::BindBuffer { target: 34962 }));
    let upload = VertexTask { vertices: vec![1, 2, 3], phase: VertexPhase::Upload };
    assert_eq!(
        upload.request(),
        Some(Command::BufferData { target: 34962, data: vec![1, 2, 3], usage: 35044 })
    );
    let pointer = VertexTask { vertices: vec![1, 2, 3], phase: VertexPhase::Pointer { location: 2 } };
    assert_eq!(
        pointer.request(),
        Some(Command::VertexAttribPointer {
            index: 2,
            size: 3,
            component: 5126,
            normalized: false,
            stride: 0,
            offset: 0,
        })
    );
}

#[test]
fn draw_call_carries_the_triangles_code() {
    let task = DrawTask { color: vec![0, 0, 0, 0], phase: DrawPhase::Draw };
    assert_eq!(task.request(), Some(Command::DrawArrays { mode: 4, first: 0, count: 3 }));
}
