//! The merge engine and the tree model it works on.

pub mod ast;
pub mod merge;
pub mod search;
pub mod source_parser;
pub mod tree;

pub use source_parser::BASE_CONTRACT_FILE_TYPE;
pub use source_parser::CONTRACT_EXTENSION_FILE_TYPE;
