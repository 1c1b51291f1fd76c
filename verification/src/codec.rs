//! The wire format shared by the controller and the record programs.
//!
//! Every value is laid out at a fixed width: a byte buffer occupies its
//! full 512 bytes whatever it holds, a signed 32-bit integer is four bytes
//! in little-endian two's complement, and nothing carries a length prefix.
//! Both sides of a forwarded call go through the functions of this module,
//! so they agree on every byte.

use vstd::prelude::*;

verus! {

/// Width of a byte-buffer field.
pub const BUFFER_BYTES: usize = 512;

/// Width of a signed 32-bit integer on the wire.
pub const INT_BYTES: usize = 4;

/// Encoded size of an address record or payload: one buffer.
pub const ADDRESS_BYTES: usize = 512;

/// Encoded size of a profile record or payload: one buffer and three integers.
pub const PROFILE_BYTES: usize = 524;

/// Leading byte of an address update in an instruction envelope.
pub const TAG_UPDATE_ADDRESS: u8 = 0;

/// Leading byte of a profile update in an instruction envelope.
pub const TAG_UPDATE_USER_INFO: u8 = 1;

/// Leading byte of an initialization in an instruction envelope.
pub const TAG_INITIALIZE: u8 = 2;

/// The unsigned number whose low 32 bits are the two's complement of `v`.
pub open spec fn unsigned_of(v: i32) -> int {
    if v >= 0 {
        v as int
    } else {
        v + 0x1_0000_0000
    }
}

/// The four bytes of `v`, least significant first.
pub open spec fn int_bytes(v: i32) -> Seq<u8> {
    let u: int = unsigned_of(v);
    seq![
        (u % 256) as u8,
        ((u / 256) % 256) as u8,
        ((u / 65536) % 256) as u8,
        ((u / 16777216) % 256) as u8,
    ]
}

/// The integer that four little-endian bytes stand for.
pub open spec fn int_of_bytes(b: Seq<u8>) -> i32 {
    let u: int = b[0] + 256 * b[1] + 65536 * b[2] + 16777216 * b[3];
    if u < 0x8000_0000 {
        u as i32
    } else {
        (u - 0x1_0000_0000) as i32
    }
}

/// What an address record or payload holds: one 512-byte buffer.
pub struct AddressFields {
    pub address: Seq<u8>,
}

impl AddressFields {
    /// The buffer has its declared width.
    pub open spec fn wf(self) -> bool {
        self.address.len() == BUFFER_BYTES
    }

    /// The bytes that stand for these fields.
    pub open spec fn encoding(self) -> Seq<u8> {
        self.address
    }

    /// The fields that `bytes` stand for, if `bytes` has the layout's size.
    pub open spec fn decoding(bytes: Seq<u8>) -> Option<AddressFields> {
        if bytes.len() == ADDRESS_BYTES {
            Some(AddressFields { address: bytes })
        } else {
            None
        }
    }
}

/// What a profile record or payload holds: a 512-byte name and a date.
pub struct ProfileFields {
    pub name: Seq<u8>,
    pub day: i32,
    pub month: i32,
    pub year: i32,
}

impl ProfileFields {
    /// The name has its declared width.
    pub open spec fn wf(self) -> bool {
        self.name.len() == BUFFER_BYTES
    }

    /// The bytes that stand for these fields: name, day, month, year.
    pub open spec fn encoding(self) -> Seq<u8> {
        self.name + int_bytes(self.day) + int_bytes(self.month) + int_bytes(self.year)
    }

    /// The fields that `bytes` stand for, if `bytes` has the layout's size.
    pub open spec fn decoding(bytes: Seq<u8>) -> Option<ProfileFields> {
        if bytes.len() == PROFILE_BYTES {
            Some(
                ProfileFields {
                    name: bytes.subrange(0, 512),
                    day: int_of_bytes(bytes.subrange(512, 516)),
                    month: int_of_bytes(bytes.subrange(516, 520)),
                    year: int_of_bytes(bytes.subrange(520, 524)),
                },
            )
        } else {
            None
        }
    }
}

/// What an instruction envelope holds: one of the controller's three
/// operations with its fields.
pub enum Envelope {
    UpdateAddress { fields: AddressFields },
    UpdateUserInfo { fields: ProfileFields },
    Initialize,
}

impl Envelope {
    /// Every buffer has its declared width.
    pub open spec fn wf(self) -> bool {
        match self {
            Envelope::UpdateAddress { fields } => fields.wf(),
            Envelope::UpdateUserInfo { fields } => fields.wf(),
            Envelope::Initialize => true,
        }
    }

    /// The bytes that stand for the envelope: the tag of the operation,
    /// then its fields.
    pub open spec fn encoding(self) -> Seq<u8> {
        match self {
            Envelope::UpdateAddress { fields } => seq![TAG_UPDATE_ADDRESS] + fields.encoding(),
            Envelope::UpdateUserInfo { fields } => seq![TAG_UPDATE_USER_INFO]
                + fields.encoding(),
            Envelope::Initialize => seq![TAG_INITIALIZE],
        }
    }

    /// The envelope that `bytes` stand for, if they start with a known
    /// tag and what follows has the size of that operation's fields.
    pub open spec fn decoding(bytes: Seq<u8>) -> Option<Envelope> {
        if bytes.len() == 0 {
            None
        } else {
            let rest = bytes.subrange(1, bytes.len() as int);
            if bytes[0] == TAG_UPDATE_ADDRESS {
                match AddressFields::decoding(rest) {
                    Some(fields) => Some(Envelope::UpdateAddress { fields }),
                    None => None,
                }
            } else if bytes[0] == TAG_UPDATE_USER_INFO {
                match ProfileFields::decoding(rest) {
                    Some(fields) => Some(Envelope::UpdateUserInfo { fields }),
                    None => None,
                }
            } else if bytes[0] == TAG_INITIALIZE && rest.len() == 0 {
                Some(Envelope::Initialize)
            } else {
                None
            }
        }
    }
}

/// Appends the four little-endian bytes of `v` to `out`.
pub fn put_int(out: &mut Vec<u8>, v: i32)
    ensures
        final(out)@ == old(out)@ + int_bytes(v),
{
    let u: u32 = if v >= 0 {
        v as u32
    } else {
        ((v - i32::MIN) as u32) + 0x8000_0000u32
    };
    assert(u == unsigned_of(v));
    out.push((u % 256) as u8);
    out.push(((u / 256) % 256) as u8);
    out.push(((u / 65536) % 256) as u8);
    out.push(((u / 16777216) % 256) as u8);
    assert(out@ =~= old(out)@ + int_bytes(v));
}

/// Reads the integer that stands in the four bytes of `bytes` from `at` on.
pub fn take_int(bytes: &[u8], at: usize) -> (v: i32)
    requires
        at + INT_BYTES <= bytes.len(),
    ensures
        v == int_of_bytes(bytes@.subrange(at as int, at + INT_BYTES)),
{
    let b0: u32 = bytes[at] as u32;
    let b1: u32 = bytes[at + 1] as u32;
    let b2: u32 = bytes[at + 2] as u32;
    let b3: u32 = bytes[at + 3] as u32;
    let u: u32 = b0 + 256 * b1 + 65536 * b2 + 16777216 * b3;
    if u < 0x8000_0000u32 {
        u as i32
    } else {
        ((u - 0x8000_0000u32) as i32) + i32::MIN
    }
}

/// Appends the 512 bytes of `buffer` to `out`.
pub fn put_buffer(out: &mut Vec<u8>, buffer: &[u8; 512])
    ensures
        final(out)@ == old(out)@ + buffer@,
{
    let mut i: usize = 0;
    while i < 512
        invariant
            i <= 512,
            out@ == old(out)@ + buffer@.subrange(0, i as int),
        decreases 512 - i,
    {
        out.push(buffer[i]);
        i += 1;
        assert(out@ =~= old(out)@ + buffer@.subrange(0, i as int));
    }
    assert(buffer@.subrange(0, 512) =~= buffer@);
}

/// Copies the 512 bytes of `bytes` from `at` on into a buffer.
pub fn take_buffer(bytes: &[u8], at: usize) -> (buffer: [u8; 512])
    requires
        at + BUFFER_BYTES <= bytes.len(),
    ensures
        buffer@ == bytes@.subrange(at as int, at + BUFFER_BYTES),
{
    let mut buffer: [u8; 512] = [0u8; 512];
    let mut i: usize = 0;
    while i < 512
        invariant
            i <= 512,
            at + 512 <= bytes.len(),
            forall|j: int| 0 <= j < i ==> buffer@[j] == bytes@[at + j],
        decreases 512 - i,
    {
        buffer[i] = bytes[at + i];
        i += 1;
    }
    assert(buffer@ =~= bytes@.subrange(at as int, at + BUFFER_BYTES));
    buffer
}

/// Lays out one buffer as an address record or payload.
pub fn encode_address(address: &[u8; 512]) -> (out: Vec<u8>)
    ensures
        out@ == (AddressFields { address: address@ }).encoding(),
{
    let mut out: Vec<u8> = Vec::new();
    put_buffer(&mut out, address);
    assert(out@ =~= address@);
    out
}

/// Reads an address record or payload, which must fill `bytes` exactly.
pub fn decode_address(bytes: &[u8]) -> (address: Option<[u8; 512]>)
    ensures
        match AddressFields::decoding(bytes@) {
            Some(fields) => address is Some && address->0@ == fields.address,
            None => address is None,
        },
{
    if bytes.len() != ADDRESS_BYTES {
        return None;
    }
    let buffer = take_buffer(bytes, 0);
    assert(bytes@.subrange(0, 512) =~= bytes@);
    Some(buffer)
}

/// Lays out a name and a date as a profile record or payload.
pub fn encode_profile(name: &[u8; 512], day: i32, month: i32, year: i32) -> (out: Vec<u8>)
    ensures
        out@ == (ProfileFields { name: name@, day, month, year }).encoding(),
{
    let mut out: Vec<u8> = Vec::new();
    put_buffer(&mut out, name);
    put_int(&mut out, day);
    put_int(&mut out, month);
    put_int(&mut out, year);
    assert(out@ =~= name@ + int_bytes(day) + int_bytes(month) + int_bytes(year));
    out
}

/// Reads a profile record or payload, which must fill `bytes` exactly.
pub fn decode_profile(bytes: &[u8]) -> (profile: Option<([u8; 512], i32, i32, i32)>)
    ensures
        match ProfileFields::decoding(bytes@) {
            Some(fields) => profile matches Some((name, day, month, year)) && name@
                == fields.name && day == fields.day && month == fields.month && year
                == fields.year,
            None => profile is None,
        },
{
    if bytes.len() != PROFILE_BYTES {
        return None;
    }
    let name = take_buffer(bytes, 0);
    let day: i32 = take_int(bytes, 512);
    let month: i32 = take_int(bytes, 516);
    let year: i32 = take_int(bytes, 520);
    Some((name, day, month, year))
}

/// Reading back the bytes of an integer gives the integer.
pub proof fn int_decode_inverts_encode(v: i32)
    ensures
        int_bytes(v).len() == INT_BYTES,
        int_of_bytes(int_bytes(v)) == v,
{
    let u: int = unsigned_of(v);
    let b = int_bytes(v);
    assert(0 <= u < 0x1_0000_0000);
    assert(b[0] == u % 256);
    assert(b[1] == (u / 256) % 256);
    assert(b[2] == (u / 65536) % 256);
    assert(b[3] == (u / 16777216) % 256);
    assert(b[0] + 256 * b[1] + 65536 * b[2] + 16777216 * b[3] == u);
}

/// Writing out the integer that four bytes stand for gives the four bytes.
pub proof fn int_encode_inverts_decode(b: Seq<u8>)
    requires
        b.len() == INT_BYTES,
    ensures
        int_bytes(int_of_bytes(b)) == b,
{
    let u: int = b[0] + 256 * b[1] + 65536 * b[2] + 16777216 * b[3];
    assert(0 <= u < 0x1_0000_0000);
    assert(unsigned_of(int_of_bytes(b)) == u);
    assert(u % 256 == b[0]);
    assert((u / 256) % 256 == b[1]);
    assert((u / 65536) % 256 == b[2]);
    assert((u / 16777216) % 256 == b[3]);
    assert(int_bytes(int_of_bytes(b)) =~= b);
}

/// Address fields survive a round trip, input of any other size is
/// refused, and whatever decodes encodes back to the same bytes.
pub proof fn address_round_trip(fields: AddressFields, bytes: Seq<u8>)
    ensures
        fields.wf() ==> AddressFields::decoding(fields.encoding()) == Some(fields),
        bytes.len() != ADDRESS_BYTES <==> AddressFields::decoding(bytes) is None,
        AddressFields::decoding(bytes) matches Some(back) ==> back.wf() && back.encoding()
            == bytes,
{
}

/// Profile fields survive a round trip, input of any other size is
/// refused, and whatever decodes encodes back to the same bytes.
pub proof fn profile_round_trip(fields: ProfileFields, bytes: Seq<u8>)
    ensures
        fields.wf() ==> ProfileFields::decoding(fields.encoding()) == Some(fields),
        bytes.len() != PROFILE_BYTES <==> ProfileFields::decoding(bytes) is None,
        ProfileFields::decoding(bytes) matches Some(back) ==> back.wf() && back.encoding()
            == bytes,
{
    if fields.wf() {
        let e = fields.encoding();
        int_decode_inverts_encode(fields.day);
        int_decode_inverts_encode(fields.month);
        int_decode_inverts_encode(fields.year);
        assert(e.subrange(0, 512) =~= fields.name);
        assert(e.subrange(512, 516) =~= int_bytes(fields.day));
        assert(e.subrange(516, 520) =~= int_bytes(fields.month));
        assert(e.subrange(520, 524) =~= int_bytes(fields.year));
    }
    if bytes.len() == PROFILE_BYTES {
        let back = ProfileFields::decoding(bytes)->0;
        int_encode_inverts_decode(bytes.subrange(512, 516));
        int_encode_inverts_decode(bytes.subrange(516, 520));
        int_encode_inverts_decode(bytes.subrange(520, 524));
        assert(back.encoding() =~= bytes);
    }
}

/// Envelopes survive a round trip, and whatever decodes encodes back to
/// the same bytes. Input that is empty, that starts with an unknown tag or
/// whose length differs from the size of the tagged operation is refused.
pub proof fn envelope_round_trip(envelope: Envelope, bytes: Seq<u8>)
    ensures
        envelope.wf() ==> Envelope::decoding(envelope.encoding()) == Some(envelope),
        Envelope::decoding(bytes) matches Some(back) ==> back.wf() && back.encoding() == bytes,
        Envelope::decoding(bytes) is Some <==> bytes.len() > 0 && {
            ||| bytes[0] == TAG_UPDATE_ADDRESS && bytes.len() == 1 + ADDRESS_BYTES
            ||| bytes[0] == TAG_UPDATE_USER_INFO && bytes.len() == 1 + PROFILE_BYTES
            ||| bytes[0] == TAG_INITIALIZE && bytes.len() == 1
        },
{
    if envelope.wf() {
        let e = envelope.encoding();
        let rest = e.subrange(1, e.len() as int);
        match envelope {
            Envelope::UpdateAddress { fields } => {
                assert(rest =~= fields.encoding());
                address_round_trip(fields, rest);
            },
            Envelope::UpdateUserInfo { fields } => {
                assert(rest =~= fields.encoding());
                profile_round_trip(fields, rest);
            },
            Envelope::Initialize => {},
        }
    }
    if bytes.len() > 0 {
        let rest = bytes.subrange(1, bytes.len() as int);
        address_round_trip(AddressFields { address: rest }, rest);
        profile_round_trip(ProfileFields { name: rest, day: 0, month: 0, year: 0 }, rest);
        if let Some(back) = Envelope::decoding(bytes) {
            assert(back.encoding() =~= bytes);
        }
    }
}

} // verus!
