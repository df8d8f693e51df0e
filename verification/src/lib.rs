pub mod device;
pub mod experimental;
pub mod frame;
pub mod kwin;
pub mod laws;
pub mod logging;
pub mod platform;
pub mod record;
pub mod swapchain;
pub mod text;
pub mod vmem;
pub mod windows;
