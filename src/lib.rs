//! Instruction selection and prompt assembly for a command-line tool that asks
//! a language-model service to refactor, test or document a Rust source file.

pub mod instruction;
pub mod prompt;
pub mod source_file;
