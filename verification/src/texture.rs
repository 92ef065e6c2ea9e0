//! The three texture sheets a cell can draw its sprite from.

use vstd::prelude::*;
use crate::error::MetaError;

verus! {

/// Which of the three sibling sheets a cell's sprite comes from.
#[derive(Clone, Copy, Debug, PartialEq, Eq, Hash, Structural)]
pub enum TextureKind {
    Base,
    Var,
    Anm,
}

impl TextureKind {
    /// The sheet that a raw value names, if it names one.
    pub open spec fn from_raw(index: int) -> Option<TextureKind> {
        if index == 0 {
            Some(TextureKind::Base)
        } else if index == 1 {
            Some(TextureKind::Var)
        } else if index == 2 {
            Some(TextureKind::Anm)
        } else {
            None
        }
    }

    /// The raw value that names this sheet.
    pub open spec fn raw(self) -> int {
        match self {
            TextureKind::Base => 0,
            TextureKind::Var => 1,
            TextureKind::Anm => 2,
        }
    }

    /// The lower-case word that ends the file stem of this sheet's image.
    pub open spec fn suffix(self) -> Seq<char> {
        match self {
            TextureKind::Base => seq!['b', 'a', 's', 'e'],
            TextureKind::Var => seq!['v', 'a', 'r'],
            TextureKind::Anm => seq!['a', 'n', 'm'],
        }
    }

    /// Decodes a raw sheet number: 0, 1 and 2 name base, var and anm; every
    /// other value is rejected.
    pub fn make(index: usize) -> (r: Result<TextureKind, MetaError>)
        ensures
            r == match Self::from_raw(index as int) {
                Some(k) => Ok::<TextureKind, MetaError>(k),
                None => Err::<TextureKind, MetaError>(MetaError::InvalidTilesetIndex),
            },
    {
        if index == 0 {
            Ok(TextureKind::Base)
        } else if index == 1 {
            Ok(TextureKind::Var)
        } else if index == 2 {
            Ok(TextureKind::Anm)
        } else {
            Err(MetaError::InvalidTilesetIndex)
        }
    }

    /// The raw number of this sheet.
    pub fn get_raw(&self) -> (r: usize)
        ensures
            r as int == self.raw(),
    {
        match self {
            TextureKind::Base => 0,
            TextureKind::Var => 1,
            TextureKind::Anm => 2,
        }
    }

    /// The word that ends the file stem of this sheet's image.
    pub fn get_suffix(&self) -> (r: &'static str)
        ensures
            r@ == self.suffix(),
    {
        match self {
            TextureKind::Base => {
                proof {
                    reveal_strlit("base");
                }
                assert("base"@ =~= seq!['b', 'a', 's', 'e']);
                "base"
            },
            TextureKind::Var => {
                proof {
                    reveal_strlit("var");
                }
                assert("var"@ =~= seq!['v', 'a', 'r']);
                "var"
            },
            TextureKind::Anm => {
                proof {
                    reveal_strlit("anm");
                }
                assert("anm"@ =~= seq!['a', 'n', 'm']);
                "anm"
            },
        }
    }
}

impl Default for TextureKind {
    fn default() -> (r: TextureKind)
        ensures
            r == TextureKind::Base,
    {
        TextureKind::Base
    }
}

/// A sheet's raw number decodes back to that sheet.
pub proof fn lemma_raw_then_make(kind: TextureKind)
    ensures
        TextureKind::from_raw(kind.raw()) == Some(kind),
{
}

/// A raw number that names a sheet is the raw number of that sheet, and only
/// 0, 1 and 2 name one.
pub proof fn lemma_make_then_raw(index: int)
    ensures
        TextureKind::from_raw(index) is Some <==> 0 <= index <= 2,
        TextureKind::from_raw(index) is Some ==> TextureKind::from_raw(index)->0.raw() == index,
{
}

} // verus!
