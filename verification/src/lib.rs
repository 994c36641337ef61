//! Verified core of an image-thumbnailing tool: option parsing, path
//! derivation, bounded-box dimension computation, and the resize
//! orchestration, with filesystem and codec work behind trusted wrappers.

pub mod dims;
pub mod elapsed;
pub mod error;
pub mod fsio;
pub mod imaging;
pub mod options;
pub mod paths;
pub mod resize;
pub mod strutil;

pub use error::ImagixError;
pub use options::Mode;
pub use options::SizeOption;
pub use resize::get_image_files;
pub use resize::process_resize_request;
