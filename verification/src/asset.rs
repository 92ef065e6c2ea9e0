//! The kinds of assets that a game session loads.

use vstd::prelude::*;

verus! {

/// A playable character.
#[derive(Clone, Copy, Debug, PartialEq, Eq, Hash, Structural)]
pub enum Character {
    Cain,
    Cecil,
    Kyuucecil,
    Kyuurydia,
    Roza,
    Rydia,
    Yang,
}

/// A piece of background music.
#[derive(Clone, Copy, Debug, PartialEq, Eq, Hash, Structural)]
pub enum Audio {
    BgmAi,
    BgmPrologue,
}

/// An asset: the sprites of a character, or a piece of music.
#[derive(Clone, Copy, Debug, PartialEq, Eq, Hash, Structural)]
pub enum AssetType {
    Character(Character),
    Audio(Audio),
}

} // verus!
