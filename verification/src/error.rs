//! The ways in which setting up or drawing the triangle can fail.

use vstd::prelude::*;

verus! {

/// Why a task ended without success. Every failure is final: nothing is
/// retried, and what the host had created by then is left to the context.
#[derive(Clone, Debug, PartialEq, Eq)]
pub enum GlError {
    /// No element has the given identifier, or the element is no canvas.
    NotFound,
    /// The canvas gave no rendering context of the kind asked for.
    ContextUnavailable,
    /// The context gave no shader object.
    ShaderCreation,
    /// The shader did not compile; holds the compiler's log, never empty.
    ShaderCompile(String),
    /// The context gave no program object.
    ProgramCreation,
    /// The program did not link; holds the linker's log, never empty.
    ProgramLink(String),
    /// The linked program has no uniform of the name asked for.
    UniformNotFound,
}

/// The model of a [`GlError`]: the same cases, with each log as a sequence
/// of characters.
pub enum GlErrorView {
    NotFound,
    ContextUnavailable,
    ShaderCreation,
    ShaderCompile(Seq<char>),
    ProgramCreation,
    ProgramLink(Seq<char>),
    UniformNotFound,
}

impl View for GlError {
    type V = GlErrorView;

    open spec fn view(&self) -> GlErrorView {
        match self {
            GlError::NotFound => GlErrorView::NotFound,
            GlError::ContextUnavailable => GlErrorView::ContextUnavailable,
            GlError::ShaderCreation => GlErrorView::ShaderCreation,
            GlError::ShaderCompile(log) => GlErrorView::ShaderCompile(log@),
            GlError::ProgramCreation => GlErrorView::ProgramCreation,
            GlError::ProgramLink(log) => GlErrorView::ProgramLink(log@),
            GlError::UniformNotFound => GlErrorView::UniformNotFound,
        }
    }
}

/// What stands in for a compiler log that is missing or empty.
pub open spec fn unknown_shader_error() -> Seq<char> {
    "Unknown error creating shader"@
}

/// What stands in for a linker log that is missing or empty.
pub open spec fn unknown_program_error() -> Seq<char> {
    "Unknown error linking program"@
}

/// The text that a failure carries when `log` is what the host reported:
/// the log itself, or `fallback` where there is none or it is empty.
pub open spec fn diagnostic(log: Option<Seq<char>>, fallback: Seq<char>) -> Seq<char> {
    match log {
        Some(text) => if text.len() == 0 { fallback } else { text },
        None => fallback,
    }
}

/// The model of how a task ended: `None` while it has not.
pub open spec fn outcome_view(end: Option<Result<(), GlError>>) -> Option<Result<(), GlErrorView>> {
    match end {
        Some(Ok(())) => Some(Ok(())),
        Some(Err(error)) => Some(Err(error@)),
        None => None,
    }
}

impl GlErrorView {
    /// The text that the failure carries to the host.
    pub open spec fn message(self) -> Seq<char> {
        match self {
            GlErrorView::NotFound => "Unable to find the canvas element"@,
            GlErrorView::ContextUnavailable => "Unable to get a webgl context"@,
            GlErrorView::ShaderCreation => "Unable to create shader object"@,
            GlErrorView::ShaderCompile(log) => log,
            GlErrorView::ProgramCreation => "Unable to create program object"@,
            GlErrorView::ProgramLink(log) => log,
            GlErrorView::UniformNotFound => "Unable to find the color uniform"@,
        }
    }

    /// Whether the failure ends the whole program instead of being handed
    /// back: a missing canvas, a missing context and a missing uniform do.
    pub open spec fn is_fatal(self) -> bool {
        self is NotFound || self is ContextUnavailable || self is UniformNotFound
    }

    /// A log that a failure holds is never empty.
    pub open spec fn wf(self) -> bool {
        match self {
            GlErrorView::ShaderCompile(log) => log.len() > 0,
            GlErrorView::ProgramLink(log) => log.len() > 0,
            _ => true,
        }
    }
}

impl GlError {
    /// The text that the failure carries to the host.
    pub fn message(&self) -> (text: String)
        ensures
            text@ == self@.message(),
    {
        match self {
            GlError::NotFound => "Unable to find the canvas element".to_owned(),
            GlError::ContextUnavailable => "Unable to get a webgl context".to_owned(),
            GlError::ShaderCreation => "Unable to create shader object".to_owned(),
            GlError::ShaderCompile(log) => log.clone(),
            GlError::ProgramCreation => "Unable to create program object".to_owned(),
            GlError::ProgramLink(log) => log.clone(),
            GlError::UniformNotFound => "Unable to find the color uniform".to_owned(),
        }
    }

    /// Whether the failure ends the whole program instead of being handed
    /// back to the caller.
    pub fn is_fatal(&self) -> (fatal: bool)
        ensures
            fatal == self@.is_fatal(),
    {
        match self {
            GlError::NotFound => true,
            GlError::ContextUnavailable => true,
            GlError::UniformNotFound => true,
            _ => false,
        }
    }
}

/// Picks the text of a compile or link failure: `log` as the host reported
/// it, or `fallback` where the host had none or an empty one.
pub fn diagnostic_text(log: Option<String>, fallback: &str) -> (text: String)
    ensures
        text@ == diagnostic(
            match log {
                Some(t) => Some(t@),
                None => None,
            },
            fallback@,
        ),
{
    match log {
        Some(t) => if t.as_str().is_empty() {
            fallback.to_owned()
        } else {
            t
        },
        None => fallback.to_owned(),
    }
}

/// A diagnostic is never empty when the fallback is not: a failure always
/// has something to say.
pub proof fn lemma_diagnostic_nonempty(log: Option<Seq<char>>, fallback: Seq<char>)
    requires
        fallback.len() > 0,
    ensures
        diagnostic(log, fallback).len() > 0,
{
}

/// Both fallback texts have characters.
pub proof fn lemma_fallbacks_nonempty()
    ensures
        unknown_shader_error().len() > 0,
        unknown_program_error().len() > 0,
{
    reveal_strlit("Unknown error creating shader");
    reveal_strlit("Unknown error linking program");
}

} // verus!
