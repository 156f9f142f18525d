//! Redfish resource status and the NVIDIA `Processor` OEM extension.

pub mod oem;
pub mod processor;
pub mod resource;
