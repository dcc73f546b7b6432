pub mod backend;
pub mod engine;
pub mod err;
pub mod git;
pub mod text;
pub mod trailer;
