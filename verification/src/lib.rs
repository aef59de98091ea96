//! Boot and trap layer of a 32-bit RISC-V machine-mode kernel, written against
//! a simulated hart so that every register and memory effect has a contract.

pub mod boot;
pub mod csr;
pub mod hart;
pub mod layout;
pub mod meminit;
pub mod memory;
pub mod registers;
pub mod trap;

pub use meminit::init_memory;
pub use trap::configure_trap_handler;
pub use trap::start_trap_rust;
