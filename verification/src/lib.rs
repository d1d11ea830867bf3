//! Consensus state machine of the DeFMI virtual machine.

pub mod aethel_book;
pub mod application;
pub mod block;
pub mod bytes;
pub mod clearing_book;
pub mod crypto;
pub mod decode;
pub mod endorsement;
pub mod execution;
pub mod genesis;
pub mod id;
pub mod json;
pub mod order;
pub mod outcome;
pub mod reader;
pub mod state;
pub mod table;
pub mod text;
pub mod wire_laws;

use vstd::prelude::*;

verus! {

/// The name and version of the machine.
pub const VERSION: &'static str = "qomm-avalanche-vm/0.1.0";

} // verus!
