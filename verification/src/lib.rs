//! Schema generation for OpenAI function-calling tools: the decisions behind
//! `#[derive(FunctionCall)]`, `#[function_call]` and `#[tool]`, taken over a
//! plain-value model of the annotated Rust items.
pub mod external;
pub mod text;
pub mod model;
pub mod describe;
pub mod opts;
pub mod derive;
pub mod function;
pub mod laws;
