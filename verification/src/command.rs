//! What the library asks of the host, and what the host answers.
//!
//! A [`Command`] is one call on the document or on the rendering context,
//! with every argument spelled out. A [`Reply`] is what the host saw when it
//! made the call. Objects that live in the browser never cross over: the
//! host keeps the canvas, the context, one shader per stage, the program,
//! the buffer and the uniform location, and a command names them by role.

use vstd::prelude::*;
use crate::codes::ShaderStage;

verus! {

/// One call for the host to make.
#[derive(Clone, Debug, PartialEq, Eq)]
pub enum Command {
    /// Look up the element with this identifier and take it as a canvas.
    /// Answered by [`Reply::Presence`].
    GetCanvas { id: String },
    /// Ask the canvas for a rendering context of this kind.
    /// Answered by [`Reply::Presence`].
    GetContext { kind: String },
    /// Read the canvas's width and height in pixels.
    /// Answered by [`Reply::Size`].
    GetCanvasSize,
    /// Set the viewport. Answered by [`Reply::Done`].
    Viewport { x: i32, y: i32, width: i32, height: i32 },
    /// Create the shader of this stage. Answered by [`Reply::Presence`].
    CreateShader { stage: ShaderStage },
    /// Give the shader of this stage its source. Answered by [`Reply::Done`].
    ShaderSource { stage: ShaderStage, source: String },
    /// Compile the shader of this stage. Answered by [`Reply::Done`].
    CompileShader { stage: ShaderStage },
    /// Read a parameter of the shader of this stage.
    /// Answered by [`Reply::Flag`].
    GetShaderParameter { stage: ShaderStage, pname: u32 },
    /// Read the compiler's log for the shader of this stage.
    /// Answered by [`Reply::Log`].
    GetShaderInfoLog { stage: ShaderStage },
    /// Create the program. Answered by [`Reply::Presence`].
    CreateProgram,
    /// Attach the shader of this stage to the program.
    /// Answered by [`Reply::Done`].
    AttachShader { stage: ShaderStage },
    /// Link the program. Answered by [`Reply::Done`].
    LinkProgram,
    /// Read a parameter of the program. Answered by [`Reply::Flag`].
    GetProgramParameter { pname: u32 },
    /// Read the linker's log. Answered by [`Reply::Log`].
    GetProgramInfoLog,
    /// Make the program the current one. Answered by [`Reply::Done`].
    UseProgram,
    /// Create the buffer. Answered by [`Reply::Done`].
    CreateBuffer,
    /// Bind the buffer to this target. Answered by [`Reply::Done`].
    BindBuffer { target: u32 },
    /// Fill the buffer bound to this target. Answered by [`Reply::Done`].
    BufferData { target: u32, data: Vec<u32>, usage: u32 },
    /// Find the attribute of this name in the program.
    /// Answered by [`Reply::Location`].
    GetAttribLocation { name: String },
    /// Describe how the attribute at `index` reads the bound buffer.
    /// Answered by [`Reply::Done`].
    VertexAttribPointer { index: u32, size: i32, component: u32, normalized: bool, stride: i32, offset: i32 },
    /// Switch on the attribute array at `index`. Answered by [`Reply::Done`].
    EnableVertexAttribArray { index: u32 },
    /// Find the uniform of this name in the program and keep its location.
    /// Answered by [`Reply::Presence`].
    GetUniformLocation { name: String },
    /// Set the four-component uniform at the location kept.
    /// Answered by [`Reply::Done`].
    Uniform4fv { data: Vec<u32> },
    /// Draw `count` vertices from `first` on. Answered by [`Reply::Done`].
    DrawArrays { mode: u32, first: i32, count: i32 },
}

/// The model of a [`Command`].
pub enum CommandView {
    GetCanvas { id: Seq<char> },
    GetContext { kind: Seq<char> },
    GetCanvasSize,
    Viewport { x: int, y: int, width: int, height: int },
    CreateShader { stage: ShaderStage },
    ShaderSource { stage: ShaderStage, source: Seq<char> },
    CompileShader { stage: ShaderStage },
    GetShaderParameter { stage: ShaderStage, pname: u32 },
    GetShaderInfoLog { stage: ShaderStage },
    CreateProgram,
    AttachShader { stage: ShaderStage },
    LinkProgram,
    GetProgramParameter { pname: u32 },
    GetProgramInfoLog,
    UseProgram,
    CreateBuffer,
    BindBuffer { target: u32 },
    BufferData { target: u32, data: Seq<u32>, usage: u32 },
    GetAttribLocation { name: Seq<char> },
    VertexAttribPointer { index: u32, size: int, component: u32, normalized: bool, stride: int, offset: int },
    EnableVertexAttribArray { index: u32 },
    GetUniformLocation { name: Seq<char> },
    Uniform4fv { data: Seq<u32> },
    DrawArrays { mode: u32, first: int, count: int },
}

impl View for Command {
    type V = CommandView;

    open spec fn view(&self) -> CommandView {
        match self {
            Command::GetCanvas { id } => CommandView::GetCanvas { id: id@ },
            Command::GetContext { kind } => CommandView::GetContext { kind: kind@ },
            Command::GetCanvasSize => CommandView::GetCanvasSize,
            Command::Viewport { x, y, width, height } => CommandView::Viewport {
                x: *x as int,
                y: *y as int,
                width: *width as int,
                height: *height as int,
            },
            Command::CreateShader { stage } => CommandView::CreateShader { stage: *stage },
            Command::ShaderSource { stage, source } => CommandView::ShaderSource {
                stage: *stage,
                source: source@,
            },
            Command::CompileShader { stage } => CommandView::CompileShader { stage: *stage },
            Command::GetShaderParameter { stage, pname } => CommandView::GetShaderParameter {
                stage: *stage,
                pname: *pname,
            },
            Command::GetShaderInfoLog { stage } => CommandView::GetShaderInfoLog { stage: *stage },
            Command::CreateProgram => CommandView::CreateProgram,
            Command::AttachShader { stage } => CommandView::AttachShader { stage: *stage },
            Command::LinkProgram => CommandView::LinkProgram,
            Command::GetProgramParameter { pname } => CommandView::GetProgramParameter {
                pname: *pname,
            },
            Command::GetProgramInfoLog => CommandView::GetProgramInfoLog,
            Command::UseProgram => CommandView::UseProgram,
            Command::CreateBuffer => CommandView::CreateBuffer,
            Command::BindBuffer { target } => CommandView::BindBuffer { target: *target },
            Command::BufferData { target, data, usage } => CommandView::BufferData {
                target: *target,
                data: data@,
                usage: *usage,
            },
            Command::GetAttribLocation { name } => CommandView::GetAttribLocation { name: name@ },
            Command::VertexAttribPointer { index, size, component, normalized, stride, offset } => {
                CommandView::VertexAttribPointer {
                    index: *index,
                    size: *size as int,
                    component: *component,
                    normalized: *normalized,
                    stride: *stride as int,
                    offset: *offset as int,
                }
            },
            Command::EnableVertexAttribArray { index } => CommandView::EnableVertexAttribArray {
                index: *index,
            },
            Command::GetUniformLocation { name } => CommandView::GetUniformLocation { name: name@ },
            Command::Uniform4fv { data } => CommandView::Uniform4fv { data: data@ },
            Command::DrawArrays { mode, first, count } => CommandView::DrawArrays {
                mode: *mode,
                first: *first as int,
                count: *count as int,
            },
        }
    }
}

/// The model of the command that a task may have pending.
pub open spec fn pending_view(command: Option<Command>) -> Option<CommandView> {
    match command {
        Some(c) => Some(c@),
        None => None,
    }
}

/// What the host saw when it made a call.
#[derive(Clone, Debug, PartialEq, Eq)]
pub enum Reply {
    /// The call was made; it reports nothing.
    Done,
    /// Whether the object asked for is there.
    Presence(bool),
    /// The canvas's width and height in pixels.
    Size { width: u32, height: u32 },
    /// The flag read, or `None` where what was read is no boolean.
    Flag(Option<bool>),
    /// The log read, or `None` where there is none.
    Log(Option<String>),
    /// The location found, or -1 where the name is unknown.
    Location(i32),
}

/// The model of a [`Reply`].
pub enum ReplyView {
    Done,
    Presence(bool),
    Size { width: nat, height: nat },
    Flag(Option<bool>),
    Log(Option<Seq<char>>),
    Location(i32),
}

impl View for Reply {
    type V = ReplyView;

    open spec fn view(&self) -> ReplyView {
        match self {
            Reply::Done => ReplyView::Done,
            Reply::Presence(present) => ReplyView::Presence(*present),
            Reply::Size { width, height } => ReplyView::Size {
                width: *width as nat,
                height: *height as nat,
            },
            Reply::Flag(flag) => ReplyView::Flag(*flag),
            Reply::Log(log) => ReplyView::Log(
                match log {
                    Some(text) => Some(text@),
                    None => None,
                },
            ),
            Reply::Location(location) => ReplyView::Location(*location),
        }
    }
}

impl CommandView {
    /// Whether `reply` is of the kind that answers this call.
    pub open spec fn answered_by(self, reply: ReplyView) -> bool {
        match self {
            CommandView::GetCanvas { .. } => reply is Presence,
            CommandView::GetContext { .. } => reply is Presence,
            CommandView::GetCanvasSize => reply is Size,
            CommandView::CreateShader { .. } => reply is Presence,
            CommandView::GetShaderParameter { .. } => reply is Flag,
            CommandView::GetShaderInfoLog { .. } => reply is Log,
            CommandView::CreateProgram => reply is Presence,
            CommandView::GetProgramParameter { .. } => reply is Flag,
            CommandView::GetProgramInfoLog => reply is Log,
            CommandView::GetAttribLocation { .. } => reply is Location,
            CommandView::GetUniformLocation { .. } => reply is Presence,
            _ => reply is Done,
        }
    }
}

/// Whether `reply` is of the kind that answers the call `pending`; no reply
/// answers where nothing is pending.
pub open spec fn answers(pending: Option<CommandView>, reply: ReplyView) -> bool {
    match pending {
        Some(call) => call.answered_by(reply),
        None => false,
    }
}

impl ReplyView {
    /// Whether a size that the reply holds can be handed to the viewport,
    /// whose extent is a signed 32-bit number.
    pub open spec fn fits_viewport(self) -> bool {
        match self {
            ReplyView::Size { width, height } => width <= i32::MAX && height <= i32::MAX,
            _ => true,
        }
    }
}

impl Reply {
    /// Whether a size that the reply holds can be handed to the viewport.
    pub fn fits_viewport(&self) -> (fits: bool)
        ensures
            fits == self@.fits_viewport(),
    {
        match self {
            Reply::Size { width, height } => *width <= 0x7FFF_FFFF && *height <= 0x7FFF_FFFF,
            _ => true,
        }
    }
}

} // verus!
