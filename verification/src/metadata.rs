//! Kinds of entries in contract metadata, each encoded as one byte.

use vstd::prelude::*;

verus! {

/// Kind of an entry in contract metadata; its byte encoding is its position in this list.
#[derive(Debug, Copy, Clone, PartialEq, Eq, Structural)]
pub enum ContractMetadataKind {
    /// Main contract metadata
    Contract,
    /// Trait metadata
    Trait,
    /// Initializer method
    Init,
    /// Stateless update method
    UpdateStateless,
    /// Update method that reads the contract's state
    UpdateStatefulRo,
    /// Update method that reads and writes the contract's state
    UpdateStatefulRw,
    /// Stateless view method
    ViewStateless,
    /// View method that reads the contract's state
    ViewStateful,
    /// Read-only environment argument
    EnvRo,
    /// Read-write environment argument
    EnvRw,
    /// Read-only temporary storage argument
    TmpRo,
    /// Read-write temporary storage argument
    TmpRw,
    /// Read-only slot argument
    SlotRo,
    /// Read-write slot argument
    SlotRw,
    /// Input argument
    Input,
    /// Output argument
    Output,
    /// Result of the method
    Result,
}

impl ContractMetadataKind {
    /// The byte that encodes the kind.
    pub open spec fn byte(self) -> u8 {
        match self {
            ContractMetadataKind::Contract => 0,
            ContractMetadataKind::Trait => 1,
            ContractMetadataKind::Init => 2,
            ContractMetadataKind::UpdateStateless => 3,
            ContractMetadataKind::UpdateStatefulRo => 4,
            ContractMetadataKind::UpdateStatefulRw => 5,
            ContractMetadataKind::ViewStateless => 6,
            ContractMetadataKind::ViewStateful => 7,
            ContractMetadataKind::EnvRo => 8,
            ContractMetadataKind::EnvRw => 9,
            ContractMetadataKind::TmpRo => 10,
            ContractMetadataKind::TmpRw => 11,
            ContractMetadataKind::SlotRo => 12,
            ContractMetadataKind::SlotRw => 13,
            ContractMetadataKind::Input => 14,
            ContractMetadataKind::Output => 15,
            ContractMetadataKind::Result => 16,
        }
    }

    /// The number of kinds; every byte below it encodes one.
    pub open spec fn count() -> u8 {
        17
    }

    /// The kind that `byte` encodes, or `None` where it encodes none.
    pub fn try_from_u8(byte: u8) -> (kind: Option<Self>)
        ensures
            kind is Some <==> byte < Self::count(),
            kind matches Some(k) ==> k.byte() == byte,
    {
        match byte {
            0 => Some(ContractMetadataKind::Contract),
            1 => Some(ContractMetadataKind::Trait),
            2 => Some(ContractMetadataKind::Init),
            3 => Some(ContractMetadataKind::UpdateStateless),
            4 => Some(ContractMetadataKind::UpdateStatefulRo),
            5 => Some(ContractMetadataKind::UpdateStatefulRw),
            6 => Some(ContractMetadataKind::ViewStateless),
            7 => Some(ContractMetadataKind::ViewStateful),
            8 => Some(ContractMetadataKind::EnvRo),
            9 => Some(ContractMetadataKind::EnvRw),
            10 => Some(ContractMetadataKind::TmpRo),
            11 => Some(ContractMetadataKind::TmpRw),
            12 => Some(ContractMetadataKind::SlotRo),
            13 => Some(ContractMetadataKind::SlotRw),
            14 => Some(ContractMetadataKind::Input),
            15 => Some(ContractMetadataKind::Output),
            16 => Some(ContractMetadataKind::Result),
            _ => None,
        }
    }
}

/// Every kind is encoded by a byte below the number of kinds, and no two kinds share a byte:
/// decoding the byte of a kind gives that kind back.
pub proof fn lemma_kind_byte_round_trip(a: ContractMetadataKind, b: ContractMetadataKind)
    ensures
        a.byte() < ContractMetadataKind::count(),
        a.byte() == b.byte() ==> a == b,
{
}

} // verus!
