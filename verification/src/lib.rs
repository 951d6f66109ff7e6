pub mod decode;
pub mod paths;
pub mod codec;
pub mod archive;
pub mod envelope;
pub mod extract;
