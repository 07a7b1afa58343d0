//! The verified core of a markdown viewer: an index of image assets that is
//! rebuilt root by root, the resolution of asset names against the disk and
//! the index, and the single watch session that follows the open document.
//!
//! The library does no input or output. A rebuild and a watch session are
//! state machines: a driver carries out each action that they ask for and
//! reports back what came of it.

pub mod commands;
pub mod config;
pub mod driver;
pub mod index;
pub mod markdown;
pub mod paths;
pub mod rebuild;
pub mod resolve;
pub mod store;
pub mod text;
pub mod watch;
