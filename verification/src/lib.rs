//! The decisions and plans behind a textured-rectangle Vulkan renderer: vertex
//! layout, descriptor layout and writes, command recording, pipeline state,
//! the per-frame present loop, and the order in which resources are released.
pub mod vertex;
pub mod frame;
pub mod descriptor;
pub mod commands;
pub mod lifecycle;
pub mod pipeline;
