//! Hardware abstraction layer for an FPGA-driven robot controller: the packed
//! 32-bit resource handles, the serialized dispatch of hardware commands, and
//! the names of the vendor's FPGA interface.

pub mod hal;
pub mod ni;
