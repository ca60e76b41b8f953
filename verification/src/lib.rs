pub mod governance;
pub mod runtime;
