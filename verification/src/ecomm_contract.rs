//! The controller program.
//!
//! The controller owns no storage and writes none. For every instruction
//! it derives the canonical address of the record concerned, refuses any
//! storage handle that does not sit there, and only then asks for work to
//! be done under the derived authority: the substrate creates accounts,
//! the record programs write them. What it asks for is handed out as a
//! list of requests, to be carried out in order by whoever runs the
//! controller; the answer to each decides whether the next one is made.

use vstd::prelude::*;
use vstd::slice::slice_subrange;
use crate::account::{AccountHandle, AccountModel};
use crate::codec::{
    decode_address,
    decode_profile,
    encode_address,
    encode_profile,
    AddressFields,
    Envelope,
    ProfileFields,
    ADDRESS_BYTES,
    PROFILE_BYTES,
    TAG_INITIALIZE,
    TAG_UPDATE_ADDRESS,
    TAG_UPDATE_USER_INFO,
};
use crate::deriver::{
    derived_address,
    derives_to,
    seeded_address,
    seeds_of,
    Namespace,
    SeedProof,
};
use crate::error::ProtocolError;
use crate::identity::{on_curve, Identity};

verus! {

/// The instruction envelope: what the controller is asked to do.
#[derive(Clone, Copy, Debug, PartialEq, Eq)]
pub enum InstructionData {
    UpdateAddress { address: [u8; 512] },
    UpdateUserInfo { name: [u8; 512], day: i32, month: i32, year: i32 },
    Initialize {  },
}

/// The payload forwarded to the address record program.
#[derive(Clone, Copy, Debug, PartialEq, Eq)]
pub struct AddressInstructionData {
    pub address: [u8; 512],
}

/// The payload forwarded to the profile record program.
#[derive(Clone, Copy, Debug, PartialEq, Eq)]
pub struct UserProfileInstructionData {
    pub name: [u8; 512],
    pub day: i32,
    pub month: i32,
    pub year: i32,
}

/// The layout of an address storage account, by which the controller
/// sizes the account it has created.
#[derive(Clone, Copy, Debug, PartialEq, Eq)]
pub struct AddressSchema {
    pub address: [u8; 512],
}

impl View for InstructionData {
    type V = Envelope;

    open spec fn view(&self) -> Envelope {
        match *self {
            InstructionData::UpdateAddress { address } => Envelope::UpdateAddress {
                fields: AddressFields { address: address@ },
            },
            InstructionData::UpdateUserInfo { name, day, month, year } => Envelope::UpdateUserInfo {
                fields: ProfileFields { name: name@, day, month, year },
            },
            InstructionData::Initialize {  } => Envelope::Initialize,
        }
    }
}

impl View for AddressInstructionData {
    type V = AddressFields;

    open spec fn view(&self) -> AddressFields {
        AddressFields { address: self.address@ }
    }
}

impl View for UserProfileInstructionData {
    type V = ProfileFields;

    open spec fn view(&self) -> ProfileFields {
        ProfileFields { name: self.name@, day: self.day, month: self.month, year: self.year }
    }
}

impl View for AddressSchema {
    type V = AddressFields;

    open spec fn view(&self) -> AddressFields {
        AddressFields { address: self.address@ }
    }
}

impl InstructionData {
    /// The envelope as bytes: the tag of the operation, then its fields.
    pub fn encode(&self) -> (bytes: Vec<u8>)
        ensures
            bytes@ == self@.encoding(),
    {
        let mut bytes: Vec<u8> = Vec::new();
        match self {
            InstructionData::UpdateAddress { address } => {
                bytes.push(TAG_UPDATE_ADDRESS);
                let mut fields = encode_address(address);
                bytes.append(&mut fields);
            },
            InstructionData::UpdateUserInfo { name, day, month, year } => {
                bytes.push(TAG_UPDATE_USER_INFO);
                let mut fields = encode_profile(name, *day, *month, *year);
                bytes.append(&mut fields);
            },
            InstructionData::Initialize {  } => {
                bytes.push(TAG_INITIALIZE);
            },
        }
        assert(bytes@ =~= self@.encoding());
        bytes
    }

    /// Reads an envelope. `bytes` must start with a known tag and hold
    /// exactly the fields of the tagged operation after it.
    pub fn decode(bytes: &[u8]) -> (decoded: Result<InstructionData, ProtocolError>)
        ensures
            match Envelope::decoding(bytes@) {
                Some(envelope) => decoded is Ok && decoded->Ok_0@ == envelope,
                None => decoded == Err::<InstructionData, ProtocolError>(
                    ProtocolError::MalformedPayload,
                ),
            },
    {
        if bytes.len() == 0 {
            return Err(ProtocolError::MalformedPayload);
        }
        let tag: u8 = bytes[0];
        let rest = slice_subrange(bytes, 1, bytes.len());
        if tag == TAG_UPDATE_ADDRESS {
            match decode_address(rest) {
                Some(address) => Ok(InstructionData::UpdateAddress { address }),
                None => Err(ProtocolError::MalformedPayload),
            }
        } else if tag == TAG_UPDATE_USER_INFO {
            match decode_profile(rest) {
                Some((name, day, month, year)) => Ok(
                    InstructionData::UpdateUserInfo { name, day, month, year },
                ),
                None => Err(ProtocolError::MalformedPayload),
            }
        } else if tag == TAG_INITIALIZE && rest.len() == 0 {
            Ok(InstructionData::Initialize {  })
        } else {
            Err(ProtocolError::MalformedPayload)
        }
    }
}

impl AddressInstructionData {
    /// The payload as bytes.
    pub fn encode(&self) -> (bytes: Vec<u8>)
        ensures
            bytes@ == self@.encoding(),
    {
        encode_address(&self.address)
    }

    /// Reads a payload. `bytes` must hold exactly one payload.
    pub fn decode(bytes: &[u8]) -> (decoded: Result<AddressInstructionData, ProtocolError>)
        ensures
            match AddressFields::decoding(bytes@) {
                Some(fields) => decoded is Ok && decoded->Ok_0@ == fields,
                None => decoded == Err::<AddressInstructionData, ProtocolError>(
                    ProtocolError::MalformedPayload,
                ),
            },
    {
        match decode_address(bytes) {
            Some(address) => Ok(AddressInstructionData { address }),
            None => Err(ProtocolError::MalformedPayload),
        }
    }
}

impl UserProfileInstructionData {
    /// The payload as bytes.
    pub fn encode(&self) -> (bytes: Vec<u8>)
        ensures
            bytes@ == self@.encoding(),
    {
        encode_profile(&self.name, self.day, self.month, self.year)
    }

    /// Reads a payload. `bytes` must hold exactly one payload.
    pub fn decode(bytes: &[u8]) -> (decoded: Result<UserProfileInstructionData, ProtocolError>)
        ensures
            match ProfileFields::decoding(bytes@) {
                Some(fields) => decoded is Ok && decoded->Ok_0@ == fields,
                None => decoded == Err::<UserProfileInstructionData, ProtocolError>(
                    ProtocolError::MalformedPayload,
                ),
            },
    {
        match decode_profile(bytes) {
            Some((name, day, month, year)) => Ok(
                UserProfileInstructionData { name, day, month, year },
            ),
            None => Err(ProtocolError::MalformedPayload),
        }
    }
}

impl AddressSchema {
    /// The record as bytes.
    pub fn encode(&self) -> (bytes: Vec<u8>)
        ensures
            bytes@ == self@.encoding(),
    {
        encode_address(&self.address)
    }

    /// Reads a record. `bytes` must hold exactly one record.
    pub fn decode(bytes: &[u8]) -> (decoded: Result<AddressSchema, ProtocolError>)
        ensures
            match AddressFields::decoding(bytes@) {
                Some(fields) => decoded is Ok && decoded->Ok_0@ == fields,
                None => decoded == Err::<AddressSchema, ProtocolError>(
                    ProtocolError::MalformedPayload,
                ),
            },
    {
        match decode_address(bytes) {
            Some(address) => Ok(AddressSchema { address }),
            None => Err(ProtocolError::MalformedPayload),
        }
    }
}

/// The canonical address of the address record of the user behind
/// `account`, as controlled by `program_id`, with its disambiguator.
pub fn get_address_pda(account: &AccountHandle, program_id: &Identity) -> (derived: Result<
    (Identity, u8),
    ProtocolError,
>)
    ensures
        derives_to(Namespace::Address, account.key@, program_id@, derived),
        derived matches Ok((address, bump)) ==> !on_curve(address@) && seeded_address(
            seeds_of(Namespace::Address, account.key@, bump),
            program_id@,
        ) == Some(address@),
{
    crate::deriver::derive_address(Namespace::Address, &account.key, program_id)
}

/// The canonical address of the profile record of the user behind
/// `account`, as controlled by `program_id`, with its disambiguator.
pub fn get_user_profile_pda(account: &AccountHandle, program_id: &Identity) -> (derived: Result<
    (Identity, u8),
    ProtocolError,
>)
    ensures
        derives_to(Namespace::Profile, account.key@, program_id@, derived),
        derived matches Ok((address, bump)) ==> !on_curve(address@) && seeded_address(
            seeds_of(Namespace::Profile, account.key@, bump),
            program_id@,
        ) == Some(address@),
{
    crate::deriver::derive_address(Namespace::Profile, &account.key, program_id)
}

/// One piece of work that the controller asks for under a derived
/// authority. The seed proof that comes with it stands in for the
/// signature of the derived address.
#[derive(Clone, Debug, PartialEq, Eq)]
pub enum Request {
    /// Asks the storage substrate, reached through `substrate`, to create
    /// the account `new_account` with `space` zeroed bytes, owned by
    /// `owner`, paid for by `payer` with the substrate's minimum balance
    /// for that space.
    CreateAccount {
        substrate: Identity,
        payer: Identity,
        new_account: Identity,
        space: u64,
        owner: Identity,
        proof: SeedProof,
    },
    /// Calls the record program `program` on the storage account
    /// `account` with the payload `data`.
    Forward {
        program: Identity,
        account: Identity,
        is_signer: bool,
        is_writable: bool,
        data: Vec<u8>,
        proof: SeedProof,
    },
}

/// What a request holds, as plain values.
pub enum RequestModel {
    CreateAccount {
        substrate: Seq<u8>,
        payer: Seq<u8>,
        new_account: Seq<u8>,
        space: u64,
        owner: Seq<u8>,
        seeds: Seq<Seq<u8>>,
    },
    Forward {
        program: Seq<u8>,
        account: Seq<u8>,
        is_signer: bool,
        is_writable: bool,
        data: Seq<u8>,
        seeds: Seq<Seq<u8>>,
    },
}

impl View for Request {
    type V = RequestModel;

    open spec fn view(&self) -> RequestModel {
        match *self {
            Request::CreateAccount {
                substrate,
                payer,
                new_account,
                space,
                owner,
                proof,
            } => RequestModel::CreateAccount {
                substrate: substrate@,
                payer: payer@,
                new_account: new_account@,
                space,
                owner: owner@,
                seeds: proof@,
            },
            Request::Forward {
                program,
                account,
                is_signer,
                is_writable,
                data,
                proof,
            } => RequestModel::Forward {
                program: program@,
                account: account@,
                is_signer,
                is_writable,
                data: data@,
                seeds: proof@,
            },
        }
    }
}

impl DeepView for Request {
    type V = RequestModel;

    open spec fn deep_view(&self) -> RequestModel {
        self@
    }
}

/// The answer to a request.
#[derive(Clone, Copy, Debug, PartialEq, Eq, Structural)]
pub enum Outcome {
    /// The work was done.
    Completed,
    /// The substrate or the called program refused, reporting `code`.
    Failed { code: u64 },
}

/// A controller invocation under way: the requests that are still to be
/// made, in order. The first of them is the one to make now.
#[derive(Clone, Debug, PartialEq, Eq)]
pub struct Invocation {
    pub remaining: Vec<Request>,
}

/// Whether the seeds that a request presents lead, under `program_id`,
/// to the account that the request is about.
pub open spec fn authorized(request: RequestModel, program_id: Seq<u8>) -> bool {
    match request {
        RequestModel::CreateAccount { new_account, seeds, .. } => seeded_address(
            seeds,
            program_id,
        ) == Some(new_account),
        RequestModel::Forward { account, seeds, .. } => seeded_address(seeds, program_id)
            == Some(account),
    }
}

/// What `Initialize` asks for. The six accounts are, in order: the payer,
/// the profile storage, the address storage, the profile program, the
/// address program and the storage substrate. Both storage handles must
/// sit at the addresses derived for the payer, the address storage being
/// checked first. Then two accounts are to be created, each with the
/// fixed size of its record and owned by its record program.
pub open spec fn initialize_script(program_id: Seq<u8>, accounts: Seq<AccountModel>) -> Result<
    Seq<RequestModel>,
    ProtocolError,
> {
    if accounts.len() < 6 {
        Err(ProtocolError::MissingAccount)
    } else {
        match derived_address(Namespace::Address, accounts[0].key, program_id) {
            None => Err(ProtocolError::NoValidAddressFound),
            Some((address, address_bump)) => if address != accounts[2].key {
                Err(ProtocolError::AddressMismatch)
            } else {
                match derived_address(Namespace::Profile, accounts[0].key, program_id) {
                    None => Err(ProtocolError::NoValidAddressFound),
                    Some((profile, profile_bump)) => if profile != accounts[1].key {
                        Err(ProtocolError::AddressMismatch)
                    } else {
                        Ok(
                            seq![
                                RequestModel::CreateAccount {
                                    substrate: accounts[5].key,
                                    payer: accounts[0].key,
                                    new_account: accounts[2].key,
                                    space: ADDRESS_BYTES as u64,
                                    owner: accounts[4].key,
                                    seeds: seeds_of(
                                        Namespace::Address,
                                        accounts[0].key,
                                        address_bump,
                                    ),
                                },
                                RequestModel::CreateAccount {
                                    substrate: accounts[5].key,
                                    payer: accounts[0].key,
                                    new_account: accounts[1].key,
                                    space: PROFILE_BYTES as u64,
                                    owner: accounts[3].key,
                                    seeds: seeds_of(
                                        Namespace::Profile,
                                        accounts[0].key,
                                        profile_bump,
                                    ),
                                },
                            ],
                        )
                    },
                }
            },
        }
    }
}

/// What an update asks for. The three accounts are, in order: the owner,
/// the storage of the record and the record program. The storage handle
/// must sit at the address derived for the owner in `namespace`. Then the
/// payload is forwarded to the record program, addressed to that storage
/// and marked as signed by it and writable.
pub open spec fn update_script(
    namespace: Namespace,
    payload: Seq<u8>,
    program_id: Seq<u8>,
    accounts: Seq<AccountModel>,
) -> Result<Seq<RequestModel>, ProtocolError> {
    if accounts.len() < 3 {
        Err(ProtocolError::MissingAccount)
    } else {
        match derived_address(namespace, accounts[0].key, program_id) {
            None => Err(ProtocolError::NoValidAddressFound),
            Some((address, bump)) => if address != accounts[1].key {
                Err(ProtocolError::AddressMismatch)
            } else {
                Ok(
                    seq![
                        RequestModel::Forward {
                            program: accounts[2].key,
                            account: accounts[1].key,
                            is_signer: true,
                            is_writable: true,
                            data: payload,
                            seeds: seeds_of(namespace, accounts[0].key, bump),
                        },
                    ],
                )
            },
        }
    }
}

/// What an invocation of the controller `program_id` asks for: the
/// requests to make, in order, or the reason why none is made.
pub open spec fn script(program_id: Seq<u8>, accounts: Seq<AccountModel>, instructions: Seq<u8>)
    -> Result<Seq<RequestModel>, ProtocolError> {
    match Envelope::decoding(instructions) {
        None => Err(ProtocolError::MalformedPayload),
        Some(Envelope::Initialize) => initialize_script(program_id, accounts),
        Some(Envelope::UpdateAddress { fields }) => update_script(
            Namespace::Address,
            fields.encoding(),
            program_id,
            accounts,
        ),
        Some(Envelope::UpdateUserInfo { fields }) => update_script(
            Namespace::Profile,
            fields.encoding(),
            program_id,
            accounts,
        ),
    }
}

/// The address-mismatch gate. Given what the deriver found for the
/// owner in `namespace`, accepts the supplied storage handle only if it
/// sits at the derived address, and then hands out the seeds that prove
/// authority over it. A derivation that failed is passed on as it is; a
/// handle that sits anywhere else is refused with `AddressMismatch`.
pub fn check_storage_handle(
    derived: Result<(Identity, u8), ProtocolError>,
    namespace: Namespace,
    owner: &Identity,
    storage: &AccountHandle,
) -> (checked: Result<SeedProof, ProtocolError>)
    ensures
        match derived {
            Err(e) => checked == Err::<SeedProof, ProtocolError>(e),
            Ok((address, bump)) => if address@ == storage.key@ {
                checked == Ok::<SeedProof, ProtocolError>(
                    SeedProof { namespace, owner: *owner, bump },
                )
            } else {
                checked == Err::<SeedProof, ProtocolError>(ProtocolError::AddressMismatch)
            },
        },
{
    let (address, bump) = derived?;
    if !address.same_as(&storage.key) {
        return Err(ProtocolError::AddressMismatch);
    }
    Ok(SeedProof { namespace, owner: *owner, bump })
}

/// Checks the storage handle of an update and prepares the forwarded
/// call that carries `payload`.
fn forward_update(
    namespace: Namespace,
    payload: Vec<u8>,
    program_id: &Identity,
    accounts: &[AccountHandle],
) -> (started: Result<Invocation, ProtocolError>)
    ensures
        match update_script(namespace, payload@, program_id@, accounts.deep_view()) {
            Ok(requests) => started is Ok && started->Ok_0.remaining.deep_view() == requests,
            Err(e) => started == Err::<Invocation, ProtocolError>(e),
        },
        started matches Ok(invocation) ==> forall|k: int|
            0 <= k < invocation.remaining@.len() ==> authorized(
                #[trigger] invocation.remaining@[k]@,
                program_id@,
            ),
{
    if accounts.len() < 3 {
        return Err(ProtocolError::MissingAccount);
    }
    let owner = &accounts[0];
    let storage = &accounts[1];
    let record_program = &accounts[2];
    let derived = crate::deriver::derive_address(namespace, &owner.key, program_id);
    let proof = check_storage_handle(derived, namespace, &owner.key, storage)?;
    let invocation = Invocation::forwarding(&record_program.key, &storage.key, payload, proof);
    proof {
        let requests = invocation.remaining.deep_view();
        assert(requests.len() == 1 && requests[0] == invocation.remaining@[0]@);
    }
    Ok(invocation)
}

/// Handles one invocation of the controller: decodes the instruction,
/// derives the addresses it concerns, checks every supplied storage
/// handle against them and returns the requests to make.
///
/// Nothing is asked for unless every check has passed: a malformed
/// instruction, a missing account or a storage handle that does not sit
/// at the derived address ends the invocation before any request exists.
/// Every request that is returned presents seeds that lead to the account
/// it is about, so none acts for an address taken from the caller.
pub fn handle_entrypoint(
    program_id: &Identity,
    accounts: &[AccountHandle],
    instruction_data: &[u8],
) -> (started: Result<Invocation, ProtocolError>)
    ensures
        match script(program_id@, accounts.deep_view(), instruction_data@) {
            Ok(requests) => started is Ok && started->Ok_0.remaining.deep_view() == requests,
            Err(e) => started == Err::<Invocation, ProtocolError>(e),
        },
        started matches Ok(invocation) ==> forall|k: int|
            0 <= k < invocation.remaining@.len() ==> authorized(
                #[trigger] invocation.remaining@[k]@,
                program_id@,
            ),
{
    let instruction = InstructionData::decode(instruction_data)?;
    match instruction {
        InstructionData::Initialize {  } => {
            if accounts.len() < 6 {
                return Err(ProtocolError::MissingAccount);
            }
            let payer = &accounts[0];
            let profile_storage = &accounts[1];
            let address_storage = &accounts[2];
            let profile_program = &accounts[3];
            let address_program = &accounts[4];
            let substrate = &accounts[5];
            let address_proof = check_storage_handle(
                get_address_pda(payer, program_id),
                Namespace::Address,
                &payer.key,
                address_storage,
            )?;
            let profile_proof = check_storage_handle(
                get_user_profile_pda(payer, program_id),
                Namespace::Profile,
                &payer.key,
                profile_storage,
            )?;
            let invocation = Invocation::provisioning(
                &substrate.key,
                &payer.key,
                &address_storage.key,
                &address_program.key,
                address_proof,
                &profile_storage.key,
                &profile_program.key,
                profile_proof,
            );
            proof {
                let requests = invocation.remaining.deep_view();
                assert(requests.len() == 2 && requests[0] == invocation.remaining@[0]@
                    && requests[1] == invocation.remaining@[1]@);
            }
            Ok(invocation)
        },
        InstructionData::UpdateAddress { address } => {
            let payload = AddressInstructionData { address }.encode();
            forward_update(Namespace::Address, payload, program_id, accounts)
        },
        InstructionData::UpdateUserInfo { name, day, month, year } => {
            let payload = UserProfileInstructionData { name, day, month, year }.encode();
            forward_update(Namespace::Profile, payload, program_id, accounts)
        },
    }
}

impl Invocation {
    /// The invocation that provisions the two record accounts of `payer`:
    /// the address account first, then the profile account, each sized to
    /// the fixed layout of its record and owned by its record program.
    pub fn provisioning(
        substrate: &Identity,
        payer: &Identity,
        address_storage: &Identity,
        address_program: &Identity,
        address_proof: SeedProof,
        profile_storage: &Identity,
        profile_program: &Identity,
        profile_proof: SeedProof,
    ) -> (invocation: Invocation)
        ensures
            invocation.remaining.deep_view() == seq![
                RequestModel::CreateAccount {
                    substrate: substrate@,
                    payer: payer@,
                    new_account: address_storage@,
                    space: ADDRESS_BYTES as u64,
                    owner: address_program@,
                    seeds: address_proof@,
                },
                RequestModel::CreateAccount {
                    substrate: substrate@,
                    payer: payer@,
                    new_account: profile_storage@,
                    space: PROFILE_BYTES as u64,
                    owner: profile_program@,
                    seeds: profile_proof@,
                },
            ],
    {
        let mut remaining: Vec<Request> = Vec::new();
        remaining.push(
            Request::CreateAccount {
                substrate: *substrate,
                payer: *payer,
                new_account: *address_storage,
                space: ADDRESS_BYTES as u64,
                owner: *address_program,
                proof: address_proof,
            },
        );
        remaining.push(
            Request::CreateAccount {
                substrate: *substrate,
                payer: *payer,
                new_account: *profile_storage,
                space: PROFILE_BYTES as u64,
                owner: *profile_program,
                proof: profile_proof,
            },
        );
        let invocation = Invocation { remaining };
        assert(invocation.remaining.deep_view() =~= seq![
            invocation.remaining@[0]@,
            invocation.remaining@[1]@,
        ]);
        invocation
    }

    /// The invocation that forwards `payload` to `record_program`,
    /// addressed to `storage` and marked as signed by it and writable.
    pub fn forwarding(
        record_program: &Identity,
        storage: &Identity,
        payload: Vec<u8>,
        proof: SeedProof,
    ) -> (invocation: Invocation)
        ensures
            invocation.remaining.deep_view() == seq![
                RequestModel::Forward {
                    program: record_program@,
                    account: storage@,
                    is_signer: true,
                    is_writable: true,
                    data: payload@,
                    seeds: proof@,
                },
            ],
    {
        let mut remaining: Vec<Request> = Vec::new();
        remaining.push(
            Request::Forward {
                program: *record_program,
                account: *storage,
                is_signer: true,
                is_writable: true,
                data: payload,
                proof,
            },
        );
        let invocation = Invocation { remaining };
        assert(invocation.remaining.deep_view() =~= seq![invocation.remaining@[0]@]);
        invocation
    }

    /// The request to make now, if any is left.
    pub fn next_request(&self) -> (request: Option<&Request>)
        ensures
            match request {
                Some(r) => self.remaining@.len() > 0 && *r == self.remaining@[0],
                None => self.remaining@.len() == 0,
            },
    {
        if self.remaining.len() == 0 {
            None
        } else {
            Some(&self.remaining[0])
        }
    }

    /// Whether every request has been made and answered.
    pub fn is_finished(&self) -> (finished: bool)
        ensures
            finished == (self.remaining@.len() == 0),
    {
        self.remaining.len() == 0
    }

    /// Takes the answer to the request that was made and decides how the
    /// invocation goes on. After a refusal it ends at once with the code
    /// that was reported, and the requests that were left are never made.
    /// After a completion the request is done with and the rest remains.
    pub fn resume(self, outcome: Outcome) -> (resumed: Result<Invocation, ProtocolError>)
        ensures
            match outcome {
                Outcome::Failed { code } => resumed == Err::<Invocation, ProtocolError>(
                    ProtocolError::ForwardedCallFailed { code },
                ),
                Outcome::Completed => resumed is Ok && resumed->Ok_0.remaining.deep_view() == (
                if self.remaining@.len() > 0 {
                    self.remaining.deep_view().drop_first()
                } else {
                    self.remaining.deep_view()
                }),
            },
    {
        match outcome {
            Outcome::Failed { code } => Err(ProtocolError::ForwardedCallFailed { code }),
            Outcome::Completed => {
                let mut remaining = self.remaining;
                if remaining.len() > 0 {
                    remaining.remove(0);
                    assert(remaining.deep_view() =~= self.remaining.deep_view().drop_first());
                }
                Ok(Invocation { remaining })
            },
        }
    }
}

/// The address derived for `owner` in `namespace`, where there is one.
pub open spec fn expected_key(namespace: Namespace, owner: Seq<u8>, program_id: Seq<u8>) -> Seq<
    u8,
> {
    let (address, _) = derived_address(namespace, owner, program_id)->0;
    address
}

/// The disambiguator of the address derived for `owner` in `namespace`,
/// where there is one.
pub open spec fn expected_bump(namespace: Namespace, owner: Seq<u8>, program_id: Seq<u8>) -> u8 {
    let (_, bump) = derived_address(namespace, owner, program_id)->0;
    bump
}

/// The storage handles that an operation checks, in the order of the
/// checks: for each, the namespace it is derived in and its place among
/// the accounts.
pub open spec fn checked_handles(envelope: Envelope) -> Seq<(Namespace, int)> {
    match envelope {
        Envelope::Initialize => seq![(Namespace::Address, 2int), (Namespace::Profile, 1int)],
        Envelope::UpdateAddress { .. } => seq![(Namespace::Address, 1int)],
        Envelope::UpdateUserInfo { .. } => seq![(Namespace::Profile, 1int)],
    }
}

/// The number of accounts that an operation needs.
pub open spec fn accounts_needed(envelope: Envelope) -> int {
    match envelope {
        Envelope::Initialize => 6,
        Envelope::UpdateAddress { .. } => 3,
        Envelope::UpdateUserInfo { .. } => 3,
    }
}

/// The address-mismatch gate. Where an instruction is well formed, comes
/// with enough accounts and every address it concerns can be derived, a
/// single storage handle that does not sit at its derived address makes
/// the invocation fail with `AddressMismatch`, and so no request is made.
pub proof fn mismatched_handle_is_refused(
    program_id: Seq<u8>,
    accounts: Seq<AccountModel>,
    instructions: Seq<u8>,
    which: int,
)
    requires
        Envelope::decoding(instructions) is Some,
        accounts.len() >= accounts_needed(Envelope::decoding(instructions)->0),
        forall|k: int|
            0 <= k < checked_handles(Envelope::decoding(instructions)->0).len()
                ==> derived_address(
                (#[trigger] checked_handles(Envelope::decoding(instructions)->0)[k]).0,
                accounts[0].key,
                program_id,
            ) is Some,
        0 <= which < checked_handles(Envelope::decoding(instructions)->0).len(),
        expected_key(
            checked_handles(Envelope::decoding(instructions)->0)[which].0,
            accounts[0].key,
            program_id,
        ) != accounts[checked_handles(Envelope::decoding(instructions)->0)[which].1].key,
    ensures
        script(program_id, accounts, instructions) == Err::<Seq<RequestModel>, ProtocolError>(
            ProtocolError::AddressMismatch,
        ),
{
    let handles = checked_handles(Envelope::decoding(instructions)->0);
    assert(derived_address(handles[0].0, accounts[0].key, program_id) is Some);
    if handles.len() > 1 {
        assert(derived_address(handles[1].0, accounts[0].key, program_id) is Some);
    }
}

/// Requests are made for canonical addresses only: where an invocation
/// asks for anything, every storage handle it checked sits at the address
/// derived for the first account, and every request names such a handle.
pub proof fn requests_name_derived_addresses(
    program_id: Seq<u8>,
    accounts: Seq<AccountModel>,
    instructions: Seq<u8>,
)
    requires
        script(program_id, accounts, instructions) is Ok,
    ensures
        Envelope::decoding(instructions) is Some,
        accounts.len() >= accounts_needed(Envelope::decoding(instructions)->0),
        forall|k: int|
            0 <= k < checked_handles(Envelope::decoding(instructions)->0).len() ==> {
                let (namespace, place) = #[trigger] checked_handles(
                    Envelope::decoding(instructions)->0,
                )[k];
                &&& derived_address(namespace, accounts[0].key, program_id) is Some
                &&& expected_key(namespace, accounts[0].key, program_id)
                    == accounts[place].key
            },
        script(program_id, accounts, instructions)->Ok_0.len() == checked_handles(
            Envelope::decoding(instructions)->0,
        ).len(),
        forall|k: int|
            0 <= k < checked_handles(Envelope::decoding(instructions)->0).len() ==> {
                let (namespace, place) = #[trigger] checked_handles(
                    Envelope::decoding(instructions)->0,
                )[k];
                let bump = expected_bump(namespace, accounts[0].key, program_id);
                match script(program_id, accounts, instructions)->Ok_0[k] {
                    RequestModel::CreateAccount { new_account, seeds, .. } => new_account
                        == accounts[place].key && seeds == seeds_of(
                        namespace,
                        accounts[0].key,
                        bump,
                    ),
                    RequestModel::Forward { account, seeds, .. } => account
                        == accounts[place].key && seeds == seeds_of(
                        namespace,
                        accounts[0].key,
                        bump,
                    ),
                }
            },
{
}

/// Initialization provisions exactly the two record accounts: the address
/// account first, then the profile account, each owned by its record
/// program, sized to the fixed layout of its record and paid for by the
/// first account.
pub proof fn initialize_creates_both_accounts(
    program_id: Seq<u8>,
    accounts: Seq<AccountModel>,
    instructions: Seq<u8>,
)
    requires
        Envelope::decoding(instructions) == Some(Envelope::Initialize),
        script(program_id, accounts, instructions) is Ok,
    ensures
        ({
            let requests = script(program_id, accounts, instructions)->Ok_0;
            &&& requests.len() == 2
            &&& requests[0] matches RequestModel::CreateAccount {
                payer,
                new_account,
                space,
                owner,
                ..
            }
            &&& payer == accounts[0].key
            &&& new_account == accounts[2].key
            &&& space == ADDRESS_BYTES
            &&& owner == accounts[4].key
            &&& requests[1] matches RequestModel::CreateAccount {
                payer,
                new_account,
                space,
                owner,
                ..
            }
            &&& payer == accounts[0].key
            &&& new_account == accounts[1].key
            &&& space == PROFILE_BYTES
            &&& owner == accounts[3].key
        }),
{
}

/// An address update goes through end to end. What the controller
/// forwards for `UpdateAddress` is one call to the record program named
/// by the third account; run by the address record program on an account
/// that it owns and that holds a record, that call succeeds and leaves the
/// account holding exactly the new address.
pub proof fn forwarded_address_update_is_applied(
    program_id: Seq<u8>,
    accounts: Seq<AccountModel>,
    fields: AddressFields,
    record_program: Seq<u8>,
    storage: Seq<AccountModel>,
)
    requires
        fields.wf(),
        script(program_id, accounts, (Envelope::UpdateAddress { fields }).encoding()) is Ok,
        storage.len() > 0,
        storage[0].owner == record_program,
        storage[0].data.len() == ADDRESS_BYTES,
    ensures
        ({
            let requests = script(
                program_id,
                accounts,
                (Envelope::UpdateAddress { fields }).encoding(),
            )->Ok_0;
            &&& requests.len() == 1
            &&& requests[0] matches RequestModel::Forward { program, account, data, .. }
            &&& program == accounts[2].key
            &&& account == accounts[1].key
            &&& crate::address_program::verdict(record_program, storage, data) == Ok::<
                (),
                ProtocolError,
            >(())
            &&& AddressFields::decoding(AddressFields::decoding(data)->0.encoding()) == Some(
                fields,
            )
        }),
{
    crate::codec::envelope_round_trip(Envelope::UpdateAddress { fields }, seq![]);
    crate::codec::address_round_trip(fields, fields.encoding());
}

/// A profile update goes through end to end. What the controller
/// forwards for `UpdateUserInfo` is one call to the record program named
/// by the third account; run by the profile record program on an account
/// that it owns and that holds a record, that call succeeds and leaves the
/// account holding exactly the new name and date.
pub proof fn forwarded_profile_update_is_applied(
    program_id: Seq<u8>,
    accounts: Seq<AccountModel>,
    fields: ProfileFields,
    record_program: Seq<u8>,
    storage: Seq<AccountModel>,
)
    requires
        fields.wf(),
        script(program_id, accounts, (Envelope::UpdateUserInfo { fields }).encoding()) is Ok,
        storage.len() > 0,
        storage[0].owner == record_program,
        storage[0].data.len() == PROFILE_BYTES,
    ensures
        ({
            let requests = script(
                program_id,
                accounts,
                (Envelope::UpdateUserInfo { fields }).encoding(),
            )->Ok_0;
            &&& requests.len() == 1
            &&& requests[0] matches RequestModel::Forward { program, account, data, .. }
            &&& program == accounts[2].key
            &&& account == accounts[1].key
            &&& crate::profile_program::verdict(record_program, storage, data) == Ok::<
                (),
                ProtocolError,
            >(())
            &&& ProfileFields::decoding(ProfileFields::decoding(data)->0.encoding()) == Some(
                fields,
            )
        }),
{
    crate::codec::envelope_round_trip(Envelope::UpdateUserInfo { fields }, seq![]);
    crate::codec::profile_round_trip(fields, fields.encoding());
}

} // verus!
