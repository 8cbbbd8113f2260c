pub mod audio;
pub mod byte_buffer;
pub mod controls;
pub mod cursor;
pub mod decoder;
pub mod input;
pub mod keys;
pub mod overlay;
pub mod renderer;
pub mod signaling;
pub mod stats;
pub mod stream;
pub mod text;
pub mod vulkan_decoder;
pub mod wire;
