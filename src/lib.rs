pub mod buffer;
pub mod codec;
pub mod recorder;
pub mod session;
pub mod speech;
pub mod text;
