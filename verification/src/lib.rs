pub mod utils;
pub mod memory;
pub mod cpu;
pub mod c64;
pub mod debugger;
