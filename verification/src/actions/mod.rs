pub mod executor;
pub mod keyboard;
pub mod macro_runner;
