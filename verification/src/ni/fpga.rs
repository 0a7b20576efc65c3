//! The FPGA interface: its integer types, its attributes and its status codes.

pub mod fpga_constants;
pub mod fpga_types;
