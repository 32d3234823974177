//! The numeric codes by which WebGL names its stages, targets and modes.

use vstd::prelude::*;

verus! {

/// Code of the vertex stage.
pub const VERTEX_SHADER: u32 = 35633;

/// Code of the fragment stage.
pub const FRAGMENT_SHADER: u32 = 35632;

/// Parameter name of a shader's compile flag.
pub const COMPILE_STATUS: u32 = 35713;

/// Parameter name of a program's link flag.
pub const LINK_STATUS: u32 = 35714;

/// Binding point of vertex attribute data.
pub const ARRAY_BUFFER: u32 = 34962;

/// Usage hint of data that is written once and drawn many times.
pub const STATIC_DRAW: u32 = 35044;

/// Component type of 32-bit IEEE 754 numbers.
pub const FLOAT: u32 = 5126;

/// Primitive mode in which every three vertices make one triangle.
pub const TRIANGLES: u32 = 4;

/// Reads `web_sys::WebGlRenderingContext::VERTEX_SHADER`, which web-sys
/// defines as 35633.
#[verifier::external_body]
fn webgl_vertex_shader() -> (code: u32)
    ensures
        code == VERTEX_SHADER,
{
    web_sys::WebGlRenderingContext::VERTEX_SHADER
}

/// Reads `web_sys::WebGlRenderingContext::FRAGMENT_SHADER`, which web-sys
/// defines as 35632.
#[verifier::external_body]
fn webgl_fragment_shader() -> (code: u32)
    ensures
        code == FRAGMENT_SHADER,
{
    web_sys::WebGlRenderingContext::FRAGMENT_SHADER
}

/// Reads `web_sys::WebGlRenderingContext::COMPILE_STATUS`, which web-sys
/// defines as 35713.
#[verifier::external_body]
pub(crate) fn webgl_compile_status() -> (code: u32)
    ensures
        code == COMPILE_STATUS,
{
    web_sys::WebGlRenderingContext::COMPILE_STATUS
}

/// Reads `web_sys::WebGlRenderingContext::LINK_STATUS`, which web-sys
/// defines as 35714.
#[verifier::external_body]
pub(crate) fn webgl_link_status() -> (code: u32)
    ensures
        code == LINK_STATUS,
{
    web_sys::WebGlRenderingContext::LINK_STATUS
}

/// Reads `web_sys::WebGlRenderingContext::ARRAY_BUFFER`, which web-sys
/// defines as 34962.
#[verifier::external_body]
pub(crate) fn webgl_array_buffer() -> (code: u32)
    ensures
        code == ARRAY_BUFFER,
{
    web_sys::WebGlRenderingContext::ARRAY_BUFFER
}

/// Reads `web_sys::WebGlRenderingContext::STATIC_DRAW`, which web-sys
/// defines as 35044.
#[verifier::external_body]
pub(crate) fn webgl_static_draw() -> (code: u32)
    ensures
        code == STATIC_DRAW,
{
    web_sys::WebGlRenderingContext::STATIC_DRAW
}

/// Reads `web_sys::WebGlRenderingContext::FLOAT`, which web-sys defines as
/// 5126.
#[verifier::external_body]
pub(crate) fn webgl_float() -> (code: u32)
    ensures
        code == FLOAT,
{
    web_sys::WebGlRenderingContext::FLOAT
}

/// Reads `web_sys::WebGlRenderingContext::TRIANGLES`, which web-sys defines
/// as 4.
#[verifier::external_body]
pub(crate) fn webgl_triangles() -> (code: u32)
    ensures
        code == TRIANGLES,
{
    web_sys::WebGlRenderingContext::TRIANGLES
}

/// The two stages of a WebGL program.
#[derive(Clone, Copy, Debug, PartialEq, Eq, Structural)]
pub enum ShaderStage {
    Vertex,
    Fragment,
}

impl ShaderStage {
    /// The code that WebGL knows the stage by.
    pub open spec fn spec_code(self) -> u32 {
        match self {
            ShaderStage::Vertex => VERTEX_SHADER,
            ShaderStage::Fragment => FRAGMENT_SHADER,
        }
    }

    /// The stage that a code names, if it names one.
    pub open spec fn spec_from_code(code: u32) -> Option<ShaderStage> {
        if code == VERTEX_SHADER {
            Some(ShaderStage::Vertex)
        } else if code == FRAGMENT_SHADER {
            Some(ShaderStage::Fragment)
        } else {
            None
        }
    }

    /// The stage that `code` names, or `None` where it names neither.
    pub fn from_code(code: u32) -> (stage: Option<ShaderStage>)
        ensures
            stage == Self::spec_from_code(code),
            forall|s: ShaderStage| stage == Some(s) <==> code == s.spec_code(),
    {
        if code == webgl_vertex_shader() {
            Some(ShaderStage::Vertex)
        } else if code == webgl_fragment_shader() {
            Some(ShaderStage::Fragment)
        } else {
            None
        }
    }

    /// The code to hand to the host when it creates a shader of this stage.
    #[verifier::when_used_as_spec(spec_code)]
    pub fn code(self) -> (code: u32)
        ensures
            code == self.spec_code(),
    {
        match self {
            ShaderStage::Vertex => webgl_vertex_shader(),
            ShaderStage::Fragment => webgl_fragment_shader(),
        }
    }
}

} // verus!
