//! A colored triangle for a WebGL canvas, decided step by step.
//!
//! The library never touches a browser. A task says which call the host
//! has to make next (a [`Command`]), takes what the host saw (a [`Reply`]),
//! and moves on, until the triangle is drawn or a failure (a [`GlError`])
//! has ended the task. The host starts with the call that a fresh task has
//! pending, makes it, hands the reply to the function of the task, gets
//! the next call back, and goes on until there is none.
//!
//! There is one task for each part of the work and one function that
//! moves it: [`init_webgl_context`] gets the context, [`create_shader`]
//! compiles a shader, [`setup_shaders`] builds the program from the two
//! fixed shaders, [`setup_vertices`] hands vertices to the program, and
//! [`draw_triangle`] does all of it and draws.
//!
//! Every decision (which call, with which arguments, in which order, and
//! which failure ends the task) is proved against a model of the task:
//! `history`, `script` and `order` hold what is proved of whole drawings,
//! whatever the host answers.
//!
//! Numbers that the host takes as 32-bit IEEE 754 values are held by their
//! bit patterns, see `scalar`.

pub mod codes;
pub mod command;
pub mod context;
pub mod draw;
pub mod error;
pub mod history;
pub mod order;
pub mod program;
pub mod scalar;
pub mod script;
pub mod shader;
pub mod vertices;

pub use codes::ShaderStage;
pub use command::{Command, Reply};
pub use context::{init_webgl_context, ContextPhase, ContextTask};
pub use draw::{draw_triangle, DrawPhase, DrawTask};
pub use error::GlError;
pub use program::{setup_shaders, ProgramPhase, ProgramTask};
pub use shader::{create_shader, ShaderPhase, ShaderTask};
pub use vertices::{setup_vertices, VertexPhase, VertexTask};
