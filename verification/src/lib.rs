//! The verified core of a small JavaScript shell: what the shell decides
//! around its engine, stated and proved, with the engine calls themselves
//! left to the program around it.

pub mod trio;
pub mod text;
pub mod report;
pub mod outcome;
pub mod options;
pub mod builtins;
pub mod repl;
