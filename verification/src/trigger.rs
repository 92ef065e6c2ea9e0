//! The interaction tag that every cell carries, and its one-byte code.

use vstd::prelude::*;

verus! {

/// Marks a tile of the upper layer.
#[derive(Clone, Copy, Debug, Default, PartialEq, Eq)]
pub struct UpperTile;

/// Marks a tile of the lower layer.
#[derive(Clone, Copy, Debug, Default, PartialEq, Eq)]
pub struct LowerTile;

/// What happens on a cell. A treasure or an exit carries its number inside
/// the same byte as its tag.
#[derive(Clone, Copy, Debug, PartialEq, Eq, Structural)]
pub enum TriggerKind {
    /// No trigger has been assigned yet. No byte decodes to this.
    Uninitialized,
    Passable,
    Blocker,
    UpperLowerDelta,
    LowerUpperDelta,
    Hidden,
    Bridge,
    Damage,
    BottomTransparent,
    BottomHidden,
    Unknown7,
    Unknown12,
    Unknown13,
    Treasure(u8),
    Exit(u8),
    Unknown(u8),
}

impl TriggerKind {
    /// The trigger that a raw byte stands for. The fixed codes are looked at
    /// first, then the treasure range, then the exit range; the number of a
    /// treasure or an exit is the byte under the mask `0x3F`.
    pub open spec fn decode(v: u8) -> TriggerKind {
        if v == 0x00 {
            TriggerKind::Passable
        } else if v == 0x01 {
            TriggerKind::Blocker
        } else if v == 0x02 {
            TriggerKind::UpperLowerDelta
        } else if v == 0x03 {
            TriggerKind::LowerUpperDelta
        } else if v == 0x04 {
            TriggerKind::Hidden
        } else if v == 0x05 {
            TriggerKind::Bridge
        } else if v == 0x06 {
            TriggerKind::Damage
        } else if v == 0x07 {
            TriggerKind::Unknown7
        } else if v == 0x10 {
            TriggerKind::BottomTransparent
        } else if v == 0x11 {
            TriggerKind::BottomHidden
        } else if v == 0x12 {
            TriggerKind::Unknown12
        } else if v == 0x13 {
            TriggerKind::Unknown13
        } else if 0x20 <= v <= 0x3F {
            TriggerKind::Treasure(v & 0x3F)
        } else if 0x40 <= v <= 0x5F {
            TriggerKind::Exit(v & 0x3F)
        } else {
            TriggerKind::Unknown(v)
        }
    }

    /// Whether some byte decodes to this trigger.
    pub open spec fn decodable(self) -> bool {
        match self {
            TriggerKind::Uninitialized => false,
            TriggerKind::Treasure(id) => 0x20 <= id <= 0x3F,
            TriggerKind::Exit(id) => id <= 0x1F,
            TriggerKind::Unknown(code) => Self::decode(code) == TriggerKind::Unknown(code),
            _ => true,
        }
    }

    /// The byte that decodes to this trigger, where there is one.
    pub open spec fn code(self) -> int {
        match self {
            TriggerKind::Uninitialized => 0x00,
            TriggerKind::Passable => 0x00,
            TriggerKind::Blocker => 0x01,
            TriggerKind::UpperLowerDelta => 0x02,
            TriggerKind::LowerUpperDelta => 0x03,
            TriggerKind::Hidden => 0x04,
            TriggerKind::Bridge => 0x05,
            TriggerKind::Damage => 0x06,
            TriggerKind::Unknown7 => 0x07,
            TriggerKind::BottomTransparent => 0x10,
            TriggerKind::BottomHidden => 0x11,
            TriggerKind::Unknown12 => 0x12,
            TriggerKind::Unknown13 => 0x13,
            TriggerKind::Treasure(id) => id as int,
            TriggerKind::Exit(id) => id + 0x40,
            TriggerKind::Unknown(code) => code as int,
        }
    }

    /// Decodes a raw trigger byte. Every byte stands for a trigger.
    pub fn new(v: u8) -> (r: TriggerKind)
        ensures
            r == Self::decode(v),
    {
        if v == 0x00 {
            TriggerKind::Passable
        } else if v == 0x01 {
            TriggerKind::Blocker
        } else if v == 0x02 {
            TriggerKind::UpperLowerDelta
        } else if v == 0x03 {
            TriggerKind::LowerUpperDelta
        } else if v == 0x04 {
            TriggerKind::Hidden
        } else if v == 0x05 {
            TriggerKind::Bridge
        } else if v == 0x06 {
            TriggerKind::Damage
        } else if v == 0x10 {
            TriggerKind::BottomTransparent
        } else if v == 0x11 {
            TriggerKind::BottomHidden
        } else if v == 0x07 {
            TriggerKind::Unknown7
        } else if v == 0x12 {
            TriggerKind::Unknown12
        } else if v == 0x13 {
            TriggerKind::Unknown13
        } else if 0x20 <= v && v <= 0x3F {
            TriggerKind::Treasure(v & 0x3F)
        } else if 0x40 <= v && v <= 0x5F {
            TriggerKind::Exit(v & 0x3F)
        } else {
            TriggerKind::Unknown(v)
        }
    }
}

impl Default for TriggerKind {
    fn default() -> (r: TriggerKind)
        ensures
            r == TriggerKind::Uninitialized,
    {
        TriggerKind::Uninitialized
    }
}

/// Under the mask a treasure byte keeps its value, and an exit byte loses
/// exactly its tag bit.
pub proof fn lemma_mask(v: u8)
    ensures
        0x20 <= v <= 0x3F ==> v & 0x3F == v,
        0x40 <= v <= 0x5F ==> v & 0x3F == v - 0x40,
{
    assert(0x20 <= v <= 0x3F ==> v & 0x3F == v) by (bit_vector);
    assert(0x40 <= v <= 0x5F ==> v & 0x3F == (v - 0x40) as u8) by (bit_vector);
}

/// Decoding is total and loses nothing: every byte gives a trigger that is
/// not `Uninitialized`, and the byte can be read back from it.
pub proof fn lemma_decode_then_code(v: u8)
    ensures
        TriggerKind::decode(v) != TriggerKind::Uninitialized,
        TriggerKind::decode(v).decodable(),
        TriggerKind::decode(v).code() == v,
{
    lemma_mask(v);
}

/// A trigger that some byte decodes to is what its own code decodes to.
pub proof fn lemma_code_then_decode(t: TriggerKind)
    requires
        t.decodable(),
    ensures
        0 <= t.code() <= 0xFF,
        TriggerKind::decode(t.code() as u8) == t,
{
    match t {
        TriggerKind::Treasure(id) => {
            lemma_mask(id);
        },
        TriggerKind::Exit(id) => {
            let v: u8 = (id + 0x40) as u8;
            lemma_mask(v);
        },
        _ => {},
    }
}

/// Two different bytes never decode to the same trigger.
pub proof fn lemma_decode_injective(a: u8, b: u8)
    requires
        TriggerKind::decode(a) == TriggerKind::decode(b),
    ensures
        a == b,
{
    lemma_decode_then_code(a);
    lemma_decode_then_code(b);
}

} // verus!
