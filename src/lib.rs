//! A small static checker for simple statements of a dynamically typed
//! scripting language: it splits lines into tokens, recognises a few
//! statement shapes, infers the types of literals and reports lines whose
//! annotation disagrees with the value assigned.

mod text;

pub mod types;
pub mod infer;
pub mod tokenize;
pub mod interpret;
pub mod check;
pub mod laws;

pub use check::check;
pub use infer::{gettype, gettype_explicit};
pub use interpret::interpret;
pub use tokenize::tokenize;
pub use types::{PythonType, Report, ReportType, Setting};
