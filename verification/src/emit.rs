//! The byte-emission pipeline, bulk string emission, and the formatting
//! adapter.
//!
//! A byte reaches the host in two steps: a staging command copies the value
//! into the dedicated byte register, then a fixed trigger command runs the
//! host routine that consumes the register and appends the byte to the
//! pending output line. The host shows nothing until a newline byte arrives;
//! it buffers the line and flushes on newline. The two steps must stay
//! adjacent and in order, which the contracts state by pinning the exact
//! call sequence each operation appends.

use vstd::prelude::*;
use vstd::string::*;

use crate::abi::HostAbi;
use crate::abi::HostCall;
use crate::template::StaticText;

verus! {

/// The staging command: copies the input value into the byte register
/// through a register-to-register operation.
pub open spec fn stage_template() -> Seq<char> {
    "scoreboard players operation %%temp0_putc $obj = $0 $obj"@
}

/// The trigger command: runs the host routine that consumes the byte
/// register and appends the byte to the pending output line.
pub open spec fn trigger_template() -> Seq<char> {
    "function stdout:putc"@
}

/// The staging command as a value the engine can emit.
pub fn stage_text() -> (t: StaticText)
    ensures
        t@ == stage_template(),
{
    StaticText::new("scoreboard players operation %%temp0_putc $obj = $0 $obj")
}

/// The trigger command as a value the engine can emit.
pub fn trigger_text() -> (t: StaticText)
    ensures
        t@ == trigger_template(),
{
    StaticText::new("function stdout:putc")
}

/// The two calls that emit one byte: stage the value, then trigger the
/// output routine with input 0.
pub open spec fn byte_calls(b: u8) -> Seq<HostCall> {
    seq![
        HostCall::Command { template: stage_template(), input: b as int },
        HostCall::Command { template: trigger_template(), input: 0 },
    ]
}

/// The calls that emit a whole byte sequence, one byte after the other.
pub open spec fn text_calls(bytes: Seq<u8>) -> Seq<HostCall>
    decreases bytes.len(),
{
    if bytes.len() == 0 {
        Seq::empty()
    } else {
        byte_calls(bytes.first()) + text_calls(bytes.drop_first())
    }
}

/// Emitting one more byte at the end of a text appends that byte's two
/// calls at the end of the text's calls.
pub proof fn lemma_text_calls_snoc(bytes: Seq<u8>, b: u8)
    ensures
        text_calls(bytes.push(b)) == text_calls(bytes) + byte_calls(b),
    decreases bytes.len(),
{
    let snoc = bytes.push(b);
    assert(snoc.first() == if bytes.len() == 0 { b } else { bytes.first() });
    if bytes.len() == 0 {
        assert(snoc.drop_first() =~= Seq::<u8>::empty());
        assert(text_calls(snoc.drop_first()) == Seq::<HostCall>::empty());
        assert(text_calls(snoc) == byte_calls(b) + text_calls(snoc.drop_first()));
        assert(text_calls(bytes) == Seq::<HostCall>::empty());
        assert(text_calls(snoc) =~= text_calls(bytes) + byte_calls(b));
    } else {
        assert(snoc.drop_first() =~= bytes.drop_first().push(b));
        lemma_text_calls_snoc(bytes.drop_first(), b);
        assert(text_calls(snoc) == byte_calls(bytes.first()) + text_calls(snoc.drop_first()));
        assert(text_calls(snoc) =~= text_calls(bytes) + byte_calls(b));
    }
}

/// Formatting law: emitting a text of N bytes costs exactly N byte
/// emissions, so 2N host calls, and the two calls of the i-th byte stand
/// adjacent at positions 2i and 2i + 1 — bytes reach the host in order and
/// no two emissions interleave.
pub proof fn lemma_text_calls_shape(bytes: Seq<u8>)
    ensures
        text_calls(bytes).len() == 2 * bytes.len(),
        forall|i: int|
            0 <= i < bytes.len() ==> text_calls(bytes).subrange(2 * i, 2 * i + 2)
                == byte_calls(bytes[i]),
    decreases bytes.len(),
{
    if bytes.len() > 0 {
        let tail = bytes.drop_first();
        lemma_text_calls_shape(tail);
        assert(text_calls(bytes) == byte_calls(bytes.first()) + text_calls(tail));
        assert forall|i: int|
            0 <= i < bytes.len() implies text_calls(bytes).subrange(2 * i, 2 * i + 2)
            == byte_calls(bytes[i]) by {
            if i == 0 {
                assert(text_calls(bytes).subrange(0, 2) =~= byte_calls(bytes.first()));
            } else {
                assert(text_calls(bytes).subrange(2 * i, 2 * i + 2) =~= text_calls(
                    tail,
                ).subrange(2 * (i - 1), 2 * (i - 1) + 2));
                assert(tail[i - 1] == bytes[i]);
            }
        }
    }
}

/// Write a character to `stdout`. No text is displayed until a newline is
/// written.
///
/// The host observes exactly two calls, in order: the staging call carrying
/// the byte as its input, then the fixed trigger call carrying input 0.
/// Nothing may interleave between the two, and nothing does: both stand in
/// the one sequence this call appends.
pub fn putc<S: HostAbi>(sink: &mut S, c: u8)
    ensures
        final(sink).calls() == old(sink).calls() + byte_calls(c),
{
    sink.insert_asm(stage_text(), c as i32);
    sink.insert_asm(trigger_text(), 0);
    proof {
        assert(sink.calls() =~= old(sink).calls() + byte_calls(c));
    }
}

/// Emit a static string in a single call, without the per-byte staging
/// protocol. The host receives the whole byte range at once, whatever its
/// length, the empty string included.
pub fn emit_literal<S: HostAbi>(sink: &mut S, text: StaticText)
    ensures
        final(sink).calls() == old(sink).calls().push(HostCall::Literal { text: text@ }),
{
    sink.print_raw(text);
}

/// Print an integer value to the chat in a single call.
pub fn print_int<S: HostAbi>(sink: &mut S, value: i32)
    ensures
        final(sink).calls() == old(sink).calls().push(
            HostCall::PrintInt { value: value as int },
        ),
{
    sink.print(value);
}

/// The stateless writer adapter: it buffers nothing, and every write goes
/// straight to the byte-emission pipeline.
pub struct Stdout;

impl Stdout {
    /// Write a string through the byte-emission pipeline, one UTF-8 byte at
    /// a time, in order. A string of N bytes costs exactly N `putc` calls,
    /// hence 2N host calls.
    ///
    /// The write is infallible by design: the host never reports back, so
    /// the result is always `Ok`.
    pub fn write_str<S: HostAbi>(&mut self, sink: &mut S, s: &str) -> (r: Result<(), ()>)
        ensures
            r == Ok::<(), ()>(()),
            final(sink).calls() == old(sink).calls() + text_calls(s.spec_bytes()),
    {
        let bytes: &[u8] = s.as_bytes();
        let n: usize = bytes.len();
        let mut i: usize = 0;
        while i < n
            invariant
                n == bytes@.len(),
                bytes@ == s.spec_bytes(),
                i <= n,
                sink.calls() == old(sink).calls() + text_calls(bytes@.take(i as int)),
            decreases n - i,
        {
            let b: u8 = bytes[i];
            putc(sink, b);
            proof {
                assert(bytes@.take(i as int).push(b) =~= bytes@.take((i + 1) as int));
                lemma_text_calls_snoc(bytes@.take(i as int), b);
            }
            i = i + 1;
        }
        proof {
            assert(bytes@.take(n as int) =~= s.spec_bytes());
        }
        Ok(())
    }
}

} // verus!
