//! Register plain data types as bevy assets that are read from RON files.
//!
//! Each asset type is bound to a list of file extensions. Files with one of
//! those extensions are decoded with the RON deserializer into a value of the
//! bound type, which is then handed to bevy as the file's asset.
//!
//! Give every asset type extensions of its own: bevy sends a file to the
//! loader that was registered last for the file's extension. Write them in
//! lower case: bevy looks a file up by its name in lower case.

pub mod context;
pub mod decode;
pub mod extensions;
pub mod loader;
pub mod plugin;

pub use decode::DecodeError;
pub use loader::RonLoader;
pub use plugin::RonAssetPlugin;
