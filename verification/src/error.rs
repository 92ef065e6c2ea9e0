//! The ways in which decoding a tileset or finding its textures can fail.

use vstd::prelude::*;

verus! {

/// Why a tileset could not be produced. Every failure is final for the
/// conversion at hand.
#[derive(Clone, Copy, Debug, PartialEq, Eq, Structural)]
pub enum MetaError {
    /// A cell names a texture sheet other than base, var or anm.
    InvalidTilesetIndex,
    /// The stream ended inside the four header bytes.
    Truncated,
    /// The grid is larger than this machine can address.
    TooLarge,
    /// The file stem of the metadata file holds no underscore.
    NoIdentifier,
    /// The metadata path has no parent directory.
    NoParent,
    /// After the scan at least one texture sheet was not found; a flag is set
    /// for each sheet that is missing.
    MissingTextures { base: bool, var: bool, anm: bool },
}

} // verus!
