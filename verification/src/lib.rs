//! Building blocks for flash algorithms: small binaries that a debug probe
//! loads into a target's RAM and drives through a fixed set of entry points
//! to erase, program, and verify non-volatile memory.
//!
//! The crate provides three pieces:
//! * [`ops`] — the typed operation interface a concrete flash driver
//!   implements, with its raw status-code conventions;
//! * [`shim`] — the guarded single-instance lifecycle that stands between the
//!   raw entry points and the typed interface;
//! * [`descriptor`] — the device descriptor table the host tool reads to learn
//!   the target's memory geometry.

pub mod descriptor;
pub mod ops;
pub mod shim;

pub use descriptor::FlashDevice;
pub use descriptor::Sector;

pub use ops::EraseChip;
pub use ops::ErrorCode;
pub use ops::FlashOps;
pub use ops::Operation;
pub use ops::status_code;
pub use ops::Verify;
pub use ops::ERASE;
pub use ops::PROGRAM;
pub use ops::VERIFY;
pub use shim::FlashAlgorithm;
pub use shim::NOT_INITIALIZED;
