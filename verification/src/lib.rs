pub mod errors;
pub mod file;
pub mod hybrid;
pub mod probes;
pub mod program;
pub mod validation;
