pub mod types;
pub mod utils;
pub mod fpu;
pub mod fpu_order;
pub mod decoder;
pub mod memory;
pub mod instruction_memory;
pub mod register;
pub mod cache;
pub mod sign_extension;
pub mod cpu_core;
pub mod instruction;
pub mod fpu_tester;
pub mod statistics;
pub mod instruction_laws;
