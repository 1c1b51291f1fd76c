//! Storage account handles, as an invocation receives them.

use vstd::prelude::*;
use crate::error::ProtocolError;
use crate::identity::Identity;

verus! {

/// One storage account handed to an invocation: where it sits, which
/// program may write it, whether it co-signed, and its bytes.
#[derive(Clone, Debug, PartialEq, Eq)]
pub struct AccountHandle {
    pub key: Identity,
    pub owner: Identity,
    pub is_signer: bool,
    pub data: Vec<u8>,
}

/// What a handle holds, as plain values.
pub struct AccountModel {
    pub key: Seq<u8>,
    pub owner: Seq<u8>,
    pub is_signer: bool,
    pub data: Seq<u8>,
}

impl View for AccountHandle {
    type V = AccountModel;

    open spec fn view(&self) -> AccountModel {
        AccountModel {
            key: self.key@,
            owner: self.owner@,
            is_signer: self.is_signer,
            data: self.data@,
        }
    }
}

impl DeepView for AccountHandle {
    type V = AccountModel;

    open spec fn deep_view(&self) -> AccountModel {
        self@
    }
}

impl AccountModel {
    /// The same account with other bytes.
    pub open spec fn with_data(self, data: Seq<u8>) -> AccountModel {
        AccountModel { data, ..self }
    }
}

/// The bytes of `region` after its first `bytes.len()` were overwritten
/// with `bytes`.
pub open spec fn overwritten(region: Seq<u8>, bytes: Seq<u8>) -> Seq<u8> {
    bytes + region.subrange(bytes.len() as int, region.len() as int)
}

impl AccountHandle {
    /// Writes `bytes` over the start of the account's byte region. The
    /// region never grows: bytes that would not fit are refused and the
    /// account is left as it was.
    pub fn write(&mut self, bytes: &[u8]) -> (written: Result<(), ProtocolError>)
        ensures
            bytes@.len() > old(self).data@.len() ==> written == Err::<(), ProtocolError>(
                ProtocolError::StorageOverflow,
            ) && final(self)@ == old(self)@,
            bytes@.len() <= old(self).data@.len() ==> written == Ok::<(), ProtocolError>(())
                && final(self)@ == old(self)@.with_data(overwritten(old(self).data@, bytes@)),
    {
        if bytes.len() > self.data.len() {
            return Err(ProtocolError::StorageOverflow);
        }
        let mut i: usize = 0;
        while i < bytes.len()
            invariant
                i <= bytes.len() <= self.data.len(),
                self.data@.len() == old(self).data@.len(),
                self.key == old(self).key,
                self.owner == old(self).owner,
                self.is_signer == old(self).is_signer,
                forall|j: int| 0 <= j < i ==> self.data@[j] == bytes@[j],
                forall|j: int| i <= j < self.data@.len() ==> self.data@[j] == old(self).data@[j],
            decreases bytes.len() - i,
        {
            self.data[i] = bytes[i];
            i += 1;
        }
        assert(self.data@ =~= overwritten(old(self).data@, bytes@));
        Ok(())
    }
}

} // verus!
