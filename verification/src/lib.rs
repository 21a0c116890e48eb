//! Frame presentation engine of the R-Liv image viewer: the decisions of a
//! double-buffered swapchain renderer, stated over plain values.

pub mod device;
pub mod frame;
pub mod recorder;
pub mod renderer;
pub mod schedule;
pub mod swapchain;
pub mod topology;
pub mod ui;
pub mod utils;
pub mod window;
