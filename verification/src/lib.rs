//! Project scaffolding library: given a project name, it derives the
//! directory layout, renders the build recipe and the hello-world source
//! file, and plans the commands that fetch the shared header and build and
//! run the result. Every decision the tool makes (argument handling, name
//! validation, confirmation, templating, the ordered action plan, and the
//! classification of a command's outcome) lives here with a contract; the
//! process edges (argument collection, stdin, filesystem and subprocesses)
//! stay outside.

pub mod cli;
pub mod plan;
pub mod runner;
pub mod text;
