pub mod capture;
pub mod color_cloud;
pub mod command_list;
pub mod descriptor;
pub mod dpi;
pub mod executor;
pub mod state;
pub mod swapchain;
pub mod timer;
pub mod window;
