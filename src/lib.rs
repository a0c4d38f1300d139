//! Decision logic of a small explicit-API renderer: device and queue
//! capability resolution, memory-type selection, swapchain configuration,
//! image layout transitions, the staged-upload protocol and the frame
//! synchronization scheduler.
//!
//! Everything here works on plain values; the program around the library
//! queries the device, makes the GPU calls and hands the results in.
pub mod device;
pub mod images;
pub mod memory;
pub mod queue_family;
pub mod scheduler;
pub mod swapchain;
pub mod text;
pub mod upload;
