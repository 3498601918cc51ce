pub mod error;
pub mod readback;
pub mod size;
pub mod texture_saver;
