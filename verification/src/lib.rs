//! A math engine: expression tokenizing and compilation, unit lookup and
//! conversion planning, and the shared core types.
pub mod text;
pub mod core_types;
pub mod lexer;
pub mod eval;
pub mod stack;
pub mod units;
pub mod session;
pub mod desktop;
pub mod json;
pub mod mcp;
pub mod literals;
