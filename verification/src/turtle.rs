//! The actor positioning API and the block operations at the actor's
//! position.
//!
//! The host tracks a single actor selected by a fixed tag; each axis setter
//! emits one command that stores the supplied integer into the matching
//! coordinate component. The design assumes exactly one tagged actor
//! exists; with zero or several, the outcome is host-defined and outside
//! this library's control. Coordinates are not range-checked, and no setter
//! can fail from the guest's side.

use vstd::prelude::*;

use crate::abi::HostAbi;
use crate::abi::HostCall;
use crate::blocks::McBlock;
use crate::blocks::block_with_ordinal;
use crate::blocks::ordinal_of;
use crate::template::StaticText;

verus! {

/// The command that stores the input value into the actor's X coordinate.
pub open spec fn x_template() -> Seq<char> {
    "execute as @e[tag=turtle] store result entity @s Pos[0] double 1 run scoreboard players get $0 $obj"@
}

/// The command that stores the input value into the actor's Y coordinate.
pub open spec fn y_template() -> Seq<char> {
    "execute as @e[tag=turtle] store result entity @s Pos[1] double 1 run scoreboard players get $0 $obj"@
}

/// The command that stores the input value into the actor's Z coordinate.
pub open spec fn z_template() -> Seq<char> {
    "execute as @e[tag=turtle] store result entity @s Pos[2] double 1 run scoreboard players get $0 $obj"@
}

/// The X-axis command as a value the engine can emit.
pub fn x_text() -> (t: StaticText)
    ensures
        t@ == x_template(),
{
    StaticText::new(
        "execute as @e[tag=turtle] store result entity @s Pos[0] double 1 run scoreboard players get $0 $obj",
    )
}

/// The Y-axis command as a value the engine can emit.
pub fn y_text() -> (t: StaticText)
    ensures
        t@ == y_template(),
{
    StaticText::new(
        "execute as @e[tag=turtle] store result entity @s Pos[1] double 1 run scoreboard players get $0 $obj",
    )
}

/// The Z-axis command as a value the engine can emit.
pub fn z_text() -> (t: StaticText)
    ensures
        t@ == z_template(),
{
    StaticText::new(
        "execute as @e[tag=turtle] store result entity @s Pos[2] double 1 run scoreboard players get $0 $obj",
    )
}

/// Set the X coordinate of the turtle: exactly one call, with the fixed
/// X-axis template and the coordinate as its input.
pub fn turtle_x<S: HostAbi>(sink: &mut S, x: i32)
    ensures
        final(sink).calls() == old(sink).calls().push(
            HostCall::Command { template: x_template(), input: x as int },
        ),
{
    sink.insert_asm(x_text(), x);
}

/// Set the Y coordinate of the turtle: exactly one call, with the fixed
/// Y-axis template and the coordinate as its input.
pub fn turtle_y<S: HostAbi>(sink: &mut S, y: i32)
    ensures
        final(sink).calls() == old(sink).calls().push(
            HostCall::Command { template: y_template(), input: y as int },
        ),
{
    sink.insert_asm(y_text(), y);
}

/// Set the Z coordinate of the turtle: exactly one call, with the fixed
/// Z-axis template and the coordinate as its input.
pub fn turtle_z<S: HostAbi>(sink: &mut S, z: i32)
    ensures
        final(sink).calls() == old(sink).calls().push(
            HostCall::Command { template: z_template(), input: z as int },
        ),
{
    sink.insert_asm(z_text(), z);
}

/// Place a block at the turtle's position: one call carrying the block's
/// ordinal, which is always a valid one.
pub fn turtle_set<S: HostAbi>(sink: &mut S, block: McBlock)
    ensures
        final(sink).calls() == old(sink).calls().push(
            HostCall::SetBlock { block: ordinal_of(block) },
        ),
{
    let id: i32 = block.ordinal();
    sink.turtle_set(id);
}

/// Ask whether the block at the turtle's position matches the argument: one
/// call carrying the block's ordinal. The answer is host-defined.
pub fn turtle_check<S: HostAbi>(sink: &mut S, block: McBlock) -> (present: bool)
    ensures
        final(sink).calls() == old(sink).calls().push(
            HostCall::CheckBlock { block: ordinal_of(block) },
        ),
{
    let id: i32 = block.ordinal();
    sink.turtle_check(id)
}

/// Read the block at the turtle's position: one call. The ordinal the host
/// answers is host-defined; whatever it is, the result is its image under
/// the block table, so `Some` comes back exactly when the host answered an
/// ordinal in the table's range.
pub fn turtle_get<S: HostAbi>(sink: &mut S) -> (r: Option<McBlock>)
    ensures
        final(sink).calls() == old(sink).calls().push(HostCall::GetBlock),
        exists|n: int| r == block_with_ordinal(n),
{
    let id: i32 = sink.turtle_get();
    let r = McBlock::from_ordinal(id);
    proof {
        assert(r == block_with_ordinal(id as int));
    }
    r
}

/// Read the character at the turtle's position: one call; the character the
/// host answers is host-defined.
pub fn turtle_get_char<S: HostAbi>(sink: &mut S) -> (c: u8)
    ensures
        final(sink).calls() == old(sink).calls().push(HostCall::GetChar),
{
    sink.turtle_get_char()
}

} // verus!
