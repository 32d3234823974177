use hello_webgl_wasm::error::diagnostic_text;
use hello_webgl_wasm::GlError;

#[test]
fn every_failure_has_a_message() {
    assert_eq!(GlError::NotFound.message(), "Unable to find the canvas element");
    assert_eq!(GlError::ContextUnavailable.message(), "Unable to get a webgl context");
    assert_eq!(GlError::ShaderCreation.message(), "Unable to create shader object");
    assert_eq!(GlError::ShaderCompile(String::from("ERROR: 0:3")).message(), "ERROR: 0:3");
    assert_eq!(GlError::ProgramCreation.message(), "Unable to create program object");
    assert_eq!(GlError::ProgramLink(String::from("no main")).message(), "no main");
    assert_eq!(GlError::UniformNotFound.message(), "Unable to find the color uniform");
}

#[test]
fn missing_resources_are_fatal() {
    assert!(GlError::NotFound.is_fatal());
    assert!(GlError::ContextUnavailable.is_fatal());
    assert!(GlError::UniformNotFound.is_fatal());
}

#[test]
fn compile_and_link_failures_are_handed_back() {
    assert!(!GlError::ShaderCreation.is_fatal());
    assert!(!GlError::ShaderCompile(String::from("x")).is_fatal());
    assert!(!GlError::ProgramCreation.is_fatal());
    assert!(!GlError::ProgramLink(String::from("x")).is_fatal());
}

#[test]
fn diagnostic_is_the_log_when_there_is_one() {
    assert_eq!(diagnostic_text(Some(String::from("ERROR: 0:1: syntax error")), "fallback"),
        "ERROR: 0:1: syntax error");
}

#[test]
fn diagnostic_falls_back_without_a_log() {
    assert_eq!(diagnostic_text(None, "fallback"), "fallback");
}

#[test]
fn diagnostic_falls_back_on_an_empty_log() {
    assert_eq!(diagnostic_text(Some(String::new()), "fallback"), "fallback");
}
