//! A compiler from a small line-oriented imperative language to C text:
//! tokenizer, command classifier, symbol table, statement compilers, scope
//! stack and the pipeline that assembles the output, each with its contract.
pub mod alu;
pub mod compiler;
pub mod config;
pub mod declaration;
pub mod errors;
pub mod flow;
pub mod io;
pub mod laws;
pub mod lexer;
pub mod numbers;
pub mod package;
pub mod responses;
pub mod shell;
pub mod shell_responses;
pub mod suite;
pub mod symbols;
pub mod syntax;
pub mod text;
pub mod validate;
