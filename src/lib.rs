//! Scaffolding of a CMake project: the supported language standards, the
//! generated files, and the verified plan of filesystem steps that builds a
//! project directory, with the interactive overwrite decision.
pub mod project;
pub mod reply;
pub mod template;
pub mod versions;
