//! Pixel-verification and capture-synchronisation logic for a screen-capture
//! correctness harness: addressing pixels of a mapped texture, comparing colors,
//! deriving copy descriptors and crop boxes, and the lifecycle decisions of a
//! capture session and of a one-shot snapshot.

pub mod bridge;
pub mod color;
pub mod common_colors;
pub mod device;
pub mod error;
pub mod mapped;
pub mod region;
pub mod snapshot;
pub mod swap_chain;
pub mod texture;
pub mod verify;
