pub mod frame_loop;
pub mod heatwave;
pub mod icon;
pub mod logging;
