pub mod typst;
pub mod gpu;
pub mod gpu_buffer;
