pub mod device;
pub mod parser;
pub mod types;
