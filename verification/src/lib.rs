//! Runtime support for guest programs running inside a command-driven host:
//! a virtual machine whose only operations are textual commands executed in
//! strict sequence, with a global key/value register space keyed by name.
//!
//! The library offers formatted text output, positioning of the single
//! host-tracked actor (the turtle), and direct injection of host commands.
//! Every operation bottoms out in a call across the host ABI, modelled here
//! by the [`abi::HostAbi`] trait; the contracts state exactly which calls
//! each operation appends to the trace the host observes, and in what order.

pub mod abi;
pub mod blocks;
pub mod emit;
pub mod template;
pub mod turtle;
