//! A simulator for a 32-bit RISC integer machine: the RV32I base instruction
//! set together with the minimal machine-mode privileged subset (CSR access
//! and exception/return traps).  A raw memory image is executed by a
//! fetch-decode-execute-trap loop until a polled memory-mapped status word
//! becomes non-zero or the cycle budget runs out.

pub mod bus;
pub mod cpu;
pub mod csr;
pub mod decoder;
pub mod memory;
pub mod op;
pub mod reg;
pub mod sim;
pub mod trap;
pub mod util;
