//! Planning for a small OpenGL helper layer.
//!
//! The functions of this crate decide which native calls compile a shader,
//! link a program and draw a batch of textured, colored quads, and what the
//! driver's replies mean. They never touch the driver themselves.
//!
//! Whoever holds the driver starts an exchange with [`compile_shader`] or
//! [`link_program`], makes the calls of the batch that comes back in order,
//! and hands the [`Reply`] to the last of them to `step`, which answers with
//! the next batch, until the exchange has finished and its outcome can be
//! taken. A drawing is a single batch with nothing to reply to. A [`Shader`]
//! or a [`ShaderProgram`] is given up by making the call that `release` hands
//! out for it.

pub mod call;
pub mod info_log;
pub mod program;
pub mod quads;
pub mod shader;

pub use call::{Call, Reply};
pub use info_log::{check_c_text, create_c_string_buffer};
pub use program::{link_program, use_program, ProgramLink, ShaderProgram};
pub use quads::{draw_textured_colored_quads, TEXTURED_COLORED_VERTEX_SIZE};
pub use shader::{compile_shader, Shader, ShaderCompilation};
