//! Typed interface to the FPGA PCI attach routines of the AWS FPGA SDK:
//! the SDK's status codes as a closed error catalogue, the physical
//! function and BAR selectors with their integer encodings, the attach
//! flags, and the decision that turns the outcome of an attach call into
//! an owned handle or a typed error.
pub mod errors;
pub mod fpga_pci;

