//! The host ABI boundary, modelled as an injectable capability.
//!
//! The host executes commands strictly sequentially, so the one guarantee
//! every operation of this library must preserve is program order: the calls
//! the host observes come in exactly the order the guest issued them. The
//! boundary is therefore specified as a growing trace of [`HostCall`]s. The
//! [`HostAbi`] trait is the capability the rest of the library is written
//! against; [`Recorder`] is the in-memory implementation that captures the
//! trace so it can be inspected, and a binding to a real host lives outside
//! the verified library.

use vstd::prelude::*;

use crate::template::StaticText;

verus! {

/// One call across the host ABI, as the host observes it.
pub ghost enum HostCall {
    /// Command injection: the template bytes plus the runtime input value.
    Command { template: Seq<char>, input: int },
    /// Bulk literal emission: the whole byte range of a static string.
    Literal { text: Seq<char> },
    /// Integer print: writes the value to the host's chat output.
    PrintInt { value: int },
    /// Place the block with this ordinal at the actor's position.
    SetBlock { block: int },
    /// Ask whether the block at the actor's position has this ordinal.
    CheckBlock { block: int },
    /// Read the ordinal of the block at the actor's position.
    GetBlock,
    /// Read the character stored at the actor's position.
    GetChar,
}

/// A recorded ABI call, the runtime counterpart of [`HostCall`].
#[derive(Clone, Copy, Debug, PartialEq)]
pub enum AbiCall {
    Command { text: &'static str, input: i32 },
    Literal { text: &'static str },
    PrintInt { value: i32 },
    SetBlock { block: i32 },
    CheckBlock { block: i32 },
    GetBlock,
    GetChar,
}

impl View for AbiCall {
    type V = HostCall;

    open spec fn view(&self) -> HostCall {
        match *self {
            AbiCall::Command { text, input } => HostCall::Command {
                template: text@,
                input: input as int,
            },
            AbiCall::Literal { text } => HostCall::Literal { text: text@ },
            AbiCall::PrintInt { value } => HostCall::PrintInt { value: value as int },
            AbiCall::SetBlock { block } => HostCall::SetBlock { block: block as int },
            AbiCall::CheckBlock { block } => HostCall::CheckBlock { block: block as int },
            AbiCall::GetBlock => HostCall::GetBlock,
            AbiCall::GetChar => HostCall::GetChar,
        }
    }
}

/// The fixed set of host entry points this library calls but does not
/// implement.
///
/// `calls` is the trace of everything the host has observed so far. Each
/// method appends exactly one call to that trace and changes nothing else;
/// every call is fire-and-forget, so none of them can fail from the guest's
/// side. The results of the three queries are host-defined: the contracts
/// promise only that the query itself reaches the host, nothing about the
/// answer.
pub trait HostAbi {
    /// The calls the host has observed, oldest first.
    spec fn calls(&self) -> Seq<HostCall>;

    /// Inject one command: template bytes plus the input value.
    fn insert_asm(&mut self, template: StaticText, input: i32)
        ensures
            final(self).calls() == old(self).calls().push(
                HostCall::Command { template: template@, input: input as int },
            ),
    ;

    /// Emit a whole static string in one call, without per-byte staging.
    fn print_raw(&mut self, text: StaticText)
        ensures
            final(self).calls() == old(self).calls().push(HostCall::Literal { text: text@ }),
    ;

    /// Print an integer value to the host's chat output.
    fn print(&mut self, value: i32)
        ensures
            final(self).calls() == old(self).calls().push(
                HostCall::PrintInt { value: value as int },
            ),
    ;

    /// Place the block with the given ordinal at the actor's position.
    fn turtle_set(&mut self, block: i32)
        ensures
            final(self).calls() == old(self).calls().push(
                HostCall::SetBlock { block: block as int },
            ),
    ;

    /// Ask the host whether the block at the actor's position has the given
    /// ordinal. The answer is host-defined.
    fn turtle_check(&mut self, block: i32) -> (present: bool)
        ensures
            final(self).calls() == old(self).calls().push(
                HostCall::CheckBlock { block: block as int },
            ),
    ;

    /// Read the ordinal of the block at the actor's position. The answer is
    /// host-defined.
    fn turtle_get(&mut self) -> (block: i32)
        ensures
            final(self).calls() == old(self).calls().push(HostCall::GetBlock),
    ;

    /// Read the character at the actor's position. The answer is
    /// host-defined.
    fn turtle_get_char(&mut self) -> (c: u8)
        ensures
            final(self).calls() == old(self).calls().push(HostCall::GetChar),
    ;
}

/// Ordering law: the host observes calls in program order. Every operation
/// of this library appends its calls to the trace in one piece, so when two
/// operations run in sequence, the first's calls stand wholly before the
/// second's, each group internally in issue order, with nothing interleaved
/// between them.
pub proof fn lemma_program_order(
    before: Seq<HostCall>,
    first: Seq<HostCall>,
    second: Seq<HostCall>,
    mid: Seq<HostCall>,
    after: Seq<HostCall>,
)
    requires
        mid == before + first,
        after == mid + second,
    ensures
        after == before + (first + second),
        after.len() == before.len() + first.len() + second.len(),
        forall|i: int| 0 <= i < first.len() ==> after[before.len() + i] == first[i],
        forall|i: int|
            0 <= i < second.len() ==> after[before.len() + first.len() + i] == second[i],
{
    assert(after =~= before + (first + second));
}

/// An in-memory host double: it answers every query with a fixed default and
/// keeps the full call trace for inspection.
pub struct Recorder {
    log: Vec<AbiCall>,
}

impl View for Recorder {
    type V = Seq<HostCall>;

    closed spec fn view(&self) -> Seq<HostCall> {
        self.log@.map_values(|c: AbiCall| c@)
    }
}

impl Recorder {
    /// A recorder with an empty trace.
    pub fn new() -> (r: Recorder)
        ensures
            r@ == Seq::<HostCall>::empty(),
    {
        let r = Recorder { log: Vec::new() };
        proof {
            assert(r@ =~= Seq::<HostCall>::empty());
        }
        r
    }

    /// How many calls have been recorded.
    pub fn len(&self) -> (n: usize)
        ensures
            n == self@.len(),
    {
        self.log.len()
    }

    /// The `i`-th recorded call, oldest first.
    pub fn get(&self, i: usize) -> (c: AbiCall)
        requires
            i < self@.len(),
        ensures
            c@ == self@[i as int],
    {
        self.log[i]
    }
}

impl HostAbi for Recorder {
    open spec fn calls(&self) -> Seq<HostCall> {
        self@
    }

    fn insert_asm(&mut self, template: StaticText, input: i32) {
        self.log.push(AbiCall::Command { text: template.text(), input });
        proof {
            assert(self.calls() =~= old(self).calls().push(
                HostCall::Command { template: template@, input: input as int },
            ));
        }
    }

    fn print_raw(&mut self, text: StaticText) {
        self.log.push(AbiCall::Literal { text: text.text() });
        proof {
            assert(self.calls() =~= old(self).calls().push(HostCall::Literal { text: text@ }));
        }
    }

    fn print(&mut self, value: i32) {
        self.log.push(AbiCall::PrintInt { value });
        proof {
            assert(self.calls() =~= old(self).calls().push(
                HostCall::PrintInt { value: value as int },
            ));
        }
    }

    fn turtle_set(&mut self, block: i32) {
        self.log.push(AbiCall::SetBlock { block });
        proof {
            assert(self.calls() =~= old(self).calls().push(
                HostCall::SetBlock { block: block as int },
            ));
        }
    }

    fn turtle_check(&mut self, block: i32) -> bool {
        self.log.push(AbiCall::CheckBlock { block });
        proof {
            assert(self.calls() =~= old(self).calls().push(
                HostCall::CheckBlock { block: block as int },
            ));
        }
        false
    }

    fn turtle_get(&mut self) -> i32 {
        self.log.push(AbiCall::GetBlock);
        proof {
            assert(self.calls() =~= old(self).calls().push(HostCall::GetBlock));
        }
        0
    }

    fn turtle_get_char(&mut self) -> u8 {
        self.log.push(AbiCall::GetChar);
        proof {
            assert(self.calls() =~= old(self).calls().push(HostCall::GetChar));
        }
        0
    }
}

} // verus!
