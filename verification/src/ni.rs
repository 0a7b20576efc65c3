//! Names and numbers of the vendor's FPGA interface.

pub mod fpga;
