//! The block identity table: a closed enumeration of blocks, each with a
//! stable ordinal and a canonical name in the `minecraft:` namespace.
//!
//! Ordinals cross the ABI by value, so the mapping variant to ordinal is
//! fixed and must never be renumbered; the mapping variant to name is total
//! and injective, which [`lemma_block_names_distinct`] proves.

use vstd::prelude::*;

verus! {

/// A limited subset of blocks for convenient usage.
///
/// The enumeration is closed: every variant has exactly one ordinal and one
/// canonical name, and both mappings are total.
#[derive(Debug, PartialEq, Eq, Structural, PartialOrd, Clone, Copy)]
pub enum McBlock {
    Air,
    Cobblestone,
    Granite,
    Andesite,
    Diorite,
    LapisBlock,
    IronBlock,
    GoldBlock,
    DiamondBlock,
    RedstoneBlock,
    EmeraldBlock,
}

/// The canonical name of each block, as the host spells it.
pub open spec fn name_of(b: McBlock) -> Seq<char> {
    match b {
        McBlock::Air => "minecraft:air"@,
        McBlock::Cobblestone => "minecraft:cobblestone"@,
        McBlock::Granite => "minecraft:granite"@,
        McBlock::Andesite => "minecraft:andesite"@,
        McBlock::Diorite => "minecraft:diorite"@,
        McBlock::LapisBlock => "minecraft:lapis_block"@,
        McBlock::IronBlock => "minecraft:iron_block"@,
        McBlock::GoldBlock => "minecraft:gold_block"@,
        McBlock::DiamondBlock => "minecraft:diamond_block"@,
        McBlock::RedstoneBlock => "minecraft:redstone_block"@,
        McBlock::EmeraldBlock => "minecraft:emerald_block"@,
    }
}

/// The stable ordinal of each block; this is the value that crosses the ABI.
pub open spec fn ordinal_of(b: McBlock) -> int {
    match b {
        McBlock::Air => 0,
        McBlock::Cobblestone => 1,
        McBlock::Granite => 2,
        McBlock::Andesite => 3,
        McBlock::Diorite => 4,
        McBlock::LapisBlock => 5,
        McBlock::IronBlock => 6,
        McBlock::GoldBlock => 7,
        McBlock::DiamondBlock => 8,
        McBlock::RedstoneBlock => 9,
        McBlock::EmeraldBlock => 10,
    }
}

/// The block with the given ordinal, if the ordinal is in range.
pub open spec fn block_with_ordinal(n: int) -> Option<McBlock> {
    if n == 0 {
        Some(McBlock::Air)
    } else if n == 1 {
        Some(McBlock::Cobblestone)
    } else if n == 2 {
        Some(McBlock::Granite)
    } else if n == 3 {
        Some(McBlock::Andesite)
    } else if n == 4 {
        Some(McBlock::Diorite)
    } else if n == 5 {
        Some(McBlock::LapisBlock)
    } else if n == 6 {
        Some(McBlock::IronBlock)
    } else if n == 7 {
        Some(McBlock::GoldBlock)
    } else if n == 8 {
        Some(McBlock::DiamondBlock)
    } else if n == 9 {
        Some(McBlock::RedstoneBlock)
    } else if n == 10 {
        Some(McBlock::EmeraldBlock)
    } else {
        None
    }
}

impl McBlock {
    /// The canonical string identifier of this block.
    pub fn to_name(self) -> (name: &'static str)
        ensures
            name@ == name_of(self),
    {
        match self {
            McBlock::Air => "minecraft:air",
            McBlock::Cobblestone => "minecraft:cobblestone",
            McBlock::Granite => "minecraft:granite",
            McBlock::Andesite => "minecraft:andesite",
            McBlock::Diorite => "minecraft:diorite",
            McBlock::LapisBlock => "minecraft:lapis_block",
            McBlock::IronBlock => "minecraft:iron_block",
            McBlock::GoldBlock => "minecraft:gold_block",
            McBlock::DiamondBlock => "minecraft:diamond_block",
            McBlock::RedstoneBlock => "minecraft:redstone_block",
            McBlock::EmeraldBlock => "minecraft:emerald_block",
        }
    }

    /// The stable ordinal of this block, always between 0 and 10.
    pub fn ordinal(self) -> (n: i32)
        ensures
            n as int == ordinal_of(self),
            0 <= n <= 10,
    {
        match self {
            McBlock::Air => 0,
            McBlock::Cobblestone => 1,
            McBlock::Granite => 2,
            McBlock::Andesite => 3,
            McBlock::Diorite => 4,
            McBlock::LapisBlock => 5,
            McBlock::IronBlock => 6,
            McBlock::GoldBlock => 7,
            McBlock::DiamondBlock => 8,
            McBlock::RedstoneBlock => 9,
            McBlock::EmeraldBlock => 10,
        }
    }

    /// The block with the given ordinal: `Some` exactly when the ordinal is
    /// between 0 and 10.
    pub fn from_ordinal(n: i32) -> (r: Option<McBlock>)
        ensures
            r == block_with_ordinal(n as int),
            r is Some <==> 0 <= n <= 10,
    {
        match n {
            0 => Some(McBlock::Air),
            1 => Some(McBlock::Cobblestone),
            2 => Some(McBlock::Granite),
            3 => Some(McBlock::Andesite),
            4 => Some(McBlock::Diorite),
            5 => Some(McBlock::LapisBlock),
            6 => Some(McBlock::IronBlock),
            7 => Some(McBlock::GoldBlock),
            8 => Some(McBlock::DiamondBlock),
            9 => Some(McBlock::RedstoneBlock),
            10 => Some(McBlock::EmeraldBlock),
            _ => None,
        }
    }
}

/// Ordinals and names round-trip: looking up a block's ordinal gives the
/// block back, so the ordinal mapping is injective.
pub proof fn lemma_ordinal_round_trip(b: McBlock)
    ensures
        block_with_ordinal(ordinal_of(b)) == Some(b),
{
}

/// Every canonical name lies in the `minecraft:` namespace: it is longer
/// than the prefix and its first ten characters are exactly `minecraft:`.
pub proof fn lemma_block_names_in_namespace(b: McBlock)
    ensures
        name_of(b).len() > "minecraft:"@.len(),
        name_of(b).subrange(0, 10) == "minecraft:"@,
{
    reveal_strlit("minecraft:");
    reveal_strlit("minecraft:air");
    reveal_strlit("minecraft:cobblestone");
    reveal_strlit("minecraft:granite");
    reveal_strlit("minecraft:andesite");
    reveal_strlit("minecraft:diorite");
    reveal_strlit("minecraft:lapis_block");
    reveal_strlit("minecraft:iron_block");
    reveal_strlit("minecraft:gold_block");
    reveal_strlit("minecraft:diamond_block");
    reveal_strlit("minecraft:redstone_block");
    reveal_strlit("minecraft:emerald_block");
    assert(name_of(b).subrange(0, 10) =~= "minecraft:"@);
}

/// The block identity table is injective on names: no two distinct variants
/// share a canonical name.
pub proof fn lemma_block_names_distinct(a: McBlock, b: McBlock)
    requires
        a != b,
    ensures
        name_of(a) != name_of(b),
{
    reveal_strlit("minecraft:air");
    reveal_strlit("minecraft:cobblestone");
    reveal_strlit("minecraft:granite");
    reveal_strlit("minecraft:andesite");
    reveal_strlit("minecraft:diorite");
    reveal_strlit("minecraft:lapis_block");
    reveal_strlit("minecraft:iron_block");
    reveal_strlit("minecraft:gold_block");
    reveal_strlit("minecraft:diamond_block");
    reveal_strlit("minecraft:redstone_block");
    reveal_strlit("minecraft:emerald_block");
    assert(name_of(McBlock::Air).len() == 13);
    assert(name_of(McBlock::Cobblestone).len() == 21);
    assert(name_of(McBlock::Granite).len() == 17);
    assert(name_of(McBlock::Andesite).len() == 18);
    assert(name_of(McBlock::Diorite).len() == 17);
    assert(name_of(McBlock::LapisBlock).len() == 21);
    assert(name_of(McBlock::IronBlock).len() == 20);
    assert(name_of(McBlock::GoldBlock).len() == 20);
    assert(name_of(McBlock::DiamondBlock).len() == 23);
    assert(name_of(McBlock::RedstoneBlock).len() == 24);
    assert(name_of(McBlock::EmeraldBlock).len() == 23);
    assert(name_of(McBlock::Granite)[10] != name_of(McBlock::Diorite)[10]);
    assert(name_of(McBlock::Cobblestone)[10] != name_of(McBlock::LapisBlock)[10]);
    assert(name_of(McBlock::IronBlock)[10] != name_of(McBlock::GoldBlock)[10]);
    assert(name_of(McBlock::DiamondBlock)[10] != name_of(McBlock::EmeraldBlock)[10]);
}

} // verus!
