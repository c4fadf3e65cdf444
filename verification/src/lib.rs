//! The engine of an interactive SQL client: the session that decides what
//! each line of input leads to, the meta commands, the run of a statement
//! as its rows arrive, completion, and the five textual forms of a result
//! set. Nothing here reads a terminal or talks to a server: the library is
//! handed what happened and hands back what is to be done.

pub mod cli;
pub mod commands;
pub mod completer;
pub mod db;
pub mod output;
pub mod query;
pub mod render;
pub mod repl;
pub mod script;
pub mod text;
