//! The address record program.
//!
//! It owns the storage account that holds a user's address record. An
//! invocation is one complete transaction: it checks that the account is
//! the program's own, then replaces the record with the one carried by
//! the instruction. Nothing is kept between invocations.

use vstd::prelude::*;
use crate::account::{AccountHandle, AccountModel};
use crate::codec::{decode_address, encode_address, AddressFields};
use crate::error::ProtocolError;
use crate::identity::Identity;

verus! {

/// The payload of an update: the new address, at its full width.
#[derive(Clone, Copy, Debug, PartialEq, Eq)]
pub struct InstructionData {
    pub address: [u8; 512],
}

/// The record as it is stored in the account.
#[derive(Clone, Copy, Debug, PartialEq, Eq)]
pub struct AddressSchema {
    pub address: [u8; 512],
}

impl View for InstructionData {
    type V = AddressFields;

    open spec fn view(&self) -> AddressFields {
        AddressFields { address: self.address@ }
    }
}

impl View for AddressSchema {
    type V = AddressFields;

    open spec fn view(&self) -> AddressFields {
        AddressFields { address: self.address@ }
    }
}

impl InstructionData {
    /// The payload as bytes.
    pub fn encode(&self) -> (bytes: Vec<u8>)
        ensures
            bytes@ == self@.encoding(),
    {
        encode_address(&self.address)
    }

    /// Reads a payload. `bytes` must hold exactly one payload.
    pub fn decode(bytes: &[u8]) -> (decoded: Result<InstructionData, ProtocolError>)
        ensures
            match AddressFields::decoding(bytes@) {
                Some(fields) => decoded is Ok && decoded->Ok_0@ == fields,
                None => decoded == Err::<InstructionData, ProtocolError>(
                    ProtocolError::MalformedPayload,
                ),
            },
    {
        match decode_address(bytes) {
            Some(address) => Ok(InstructionData { address }),
            None => Err(ProtocolError::MalformedPayload),
        }
    }
}

impl AddressSchema {
    /// The record as bytes.
    pub fn encode(&self) -> (bytes: Vec<u8>)
        ensures
            bytes@ == self@.encoding(),
    {
        encode_address(&self.address)
    }

    /// Reads a record. `bytes` must hold exactly one record.
    pub fn decode(bytes: &[u8]) -> (decoded: Result<AddressSchema, ProtocolError>)
        ensures
            match AddressFields::decoding(bytes@) {
                Some(fields) => decoded is Ok && decoded->Ok_0@ == fields,
                None => decoded == Err::<AddressSchema, ProtocolError>(
                    ProtocolError::MalformedPayload,
                ),
            },
    {
        match decode_address(bytes) {
            Some(address) => Ok(AddressSchema { address }),
            None => Err(ProtocolError::MalformedPayload),
        }
    }
}

/// How an invocation ends, by the first check that fails: the payload
/// must decode, an account must be supplied, the first account must be
/// owned by the invoked program, and its bytes must hold a record.
///
/// Whether the account co-signed plays no part: the owner check is the
/// sole access control, and a missing signature is tolerated. Nor can the
/// write overflow, since an account whose bytes hold a record has exactly
/// the size of one.
pub open spec fn verdict(program_id: Seq<u8>, accounts: Seq<AccountModel>, instructions: Seq<u8>)
    -> Result<(), ProtocolError> {
    if AddressFields::decoding(instructions) is None {
        Err(ProtocolError::MalformedPayload)
    } else if accounts.len() == 0 {
        Err(ProtocolError::MissingAccount)
    } else if accounts[0].owner != program_id {
        Err(ProtocolError::Unauthorized)
    } else if AddressFields::decoding(accounts[0].data) is None {
        Err(ProtocolError::MalformedPayload)
    } else {
        Ok(())
    }
}

/// Handles one invocation of the address record program: replaces the
/// record held by the first account with the one in `instructions`.
///
/// On success the first account holds exactly the encoded new record and
/// nothing else has changed. On failure nothing has changed at all.
pub fn handle_entrypoint(
    program_id: &Identity,
    accounts: &mut Vec<AccountHandle>,
    instructions: &[u8],
) -> (processed: Result<(), ProtocolError>)
    ensures
        processed == verdict(program_id@, old(accounts).deep_view(), instructions@),
        processed is Err ==> final(accounts).deep_view() == old(accounts).deep_view(),
        processed is Ok ==> final(accounts).deep_view() == old(accounts).deep_view().update(
            0,
            old(accounts)[0]@.with_data(AddressFields::decoding(instructions@)->0.encoding()),
        ),
        AddressFields::decoding(instructions@) is Some && old(accounts).len() > 0 && old(
            accounts,
        )[0].owner@ != program_id@ ==> processed == Err::<(), ProtocolError>(
            ProtocolError::Unauthorized,
        ),
{
    let instruction = match InstructionData::decode(instructions) {
        Ok(instruction) => instruction,
        Err(e) => {
            return Err(e);
        },
    };
    if accounts.len() == 0 {
        return Err(ProtocolError::MissingAccount);
    }
    if !accounts[0].owner.same_as(program_id) {
        return Err(ProtocolError::Unauthorized);
    }
    let mut record = match AddressSchema::decode(accounts[0].data.as_slice()) {
        Ok(record) => record,
        Err(e) => {
            return Err(e);
        },
    };
    record.address = instruction.address;
    let bytes = record.encode();
    let written = accounts[0].write(bytes.as_slice());
    proof {
        let before = old(accounts).deep_view();
        assert(accounts.deep_view() =~= before.update(0, before[0].with_data(bytes@)));
    }
    written
}

} // verus!
