pub mod emulator;
pub mod memory;
pub mod processor;
pub mod text;
pub mod word;
