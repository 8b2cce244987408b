//! Shader and program management for an OpenGL renderer.
//!
//! Compiling GLSL source and linking shader stages into a program is a short
//! conversation with the graphics driver: submit work, query a status word,
//! and on failure query the length of a diagnostic log, hand the driver a
//! buffer of that length, and read the text back. This crate holds the whole
//! of that conversation's logic — the status decisions, the log-retrieval
//! protocol, and the attach/detach bookkeeping of a program — as verified
//! code over plain values (handles, status words, byte buffers).
//!
//! The driver calls themselves are foreign, unsafe and need a live context,
//! so they stay with the host that owns the window and the GL context. The
//! host performs each call and hands the reply (a handle, a status word, a
//! filled buffer) to this crate, which decides what happens next.

pub mod diag;
pub mod error;
pub mod program;
pub mod shader;
pub mod stage;

pub use error::CompileError;
pub use error::LinkError;
pub use error::ShaderError;
pub use program::Program;
pub use shader::Shader;
pub use stage::StageKind;
