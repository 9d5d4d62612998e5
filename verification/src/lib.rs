//! Verified core of the Seer game updater: checksum-listing parsing, digest
//! computation, the naming of temporary files and the download URL, the
//! replacement script, and the two decision machines that drive a self-update
//! of the updater and an update of the game.

pub mod chars;
pub mod text;
pub mod checksum;
pub mod digest;
pub mod naming;
pub mod http;
pub mod self_update;
pub mod game_update;
pub mod extract;
pub use checksum::parse_sha256;
