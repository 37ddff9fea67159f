//! A cycle-level simulator of a small five-stage pipelined microprocessor
//! (fetch, decode, execute, memory, write back), with a reader for the
//! textual ROM image format and text renderings of the machine state.

pub mod constants;
pub mod isa;
pub mod alu;
pub mod stages;
pub mod processor;
pub mod scan;
pub mod rom_reader;
pub mod text;
pub mod render;
pub mod laws;
pub mod render_laws;
pub mod isa_laws;
