//! Account state: addresses, the schema discriminant, and the metadata and
//! master-edition account schemas, together with their mathematical views.
use vstd::prelude::*;
use vstd::utf8::encode_utf8;

verus! {

/// Maximum byte length of a metadata name field.
pub const MAX_NAME_LENGTH: usize = 32;

/// Maximum byte length of a metadata symbol field.
pub const MAX_SYMBOL_LENGTH: usize = 10;

/// Maximum byte length of a metadata URI field.
pub const MAX_URI_LENGTH: usize = 200;

/// Byte length of an account address.
pub const ADDRESS_LENGTH: usize = 32;

/// Exact byte length of a metadata account buffer: the discriminant, two
/// addresses, three length-prefixed strings stored at their maximum widths,
/// the fee field and two flag bytes.
pub const MAX_METADATA_LEN: usize = 1 + 32 + 32 + 4 + MAX_NAME_LENGTH + 4 + MAX_SYMBOL_LENGTH + 4
    + MAX_URI_LENGTH + 2 + 1 + 1;

/// Exact byte length of a master-edition account buffer: the discriminant,
/// the supply counter, and an optional maximum supply.
pub const MAX_MASTER_EDITION_LEN: usize = 1 + 8 + 1 + 8;

/// A fixed-size account address, held as its 32 raw bytes.
#[derive(Debug)]
pub struct Address {
    pub bytes: Vec<u8>,
}

impl View for Address {
    type V = Seq<u8>;

    open spec fn view(&self) -> Seq<u8> {
        self.bytes@
    }
}

/// A well-formed address holds exactly 32 bytes.
pub open spec fn address_wf(a: Address) -> bool {
    a@.len() == ADDRESS_LENGTH
}

impl Address {
    /// Wraps 32 raw bytes as an address; any other length is rejected.
    pub fn from_bytes(bytes: Vec<u8>) -> (r: Option<Address>)
        ensures
            match r {
                Some(a) => a@ == bytes@ && address_wf(a),
                None => bytes@.len() != ADDRESS_LENGTH,
            },
    {
        if bytes.len() == ADDRESS_LENGTH {
            Some(Address { bytes })
        } else {
            None
        }
    }

    /// Copies an address byte for byte.
    pub fn dup(&self) -> (r: Address)
        ensures
            r@ == self@,
    {
        let mut bytes: Vec<u8> = Vec::new();
        let mut i: usize = 0;
        while i < self.bytes.len()
            invariant
                i <= self.bytes@.len(),
                bytes@ == self.bytes@.subrange(0, i as int),
            decreases self.bytes@.len() - i,
        {
            bytes.push(self.bytes[i]);
            i = i + 1;
            proof {
                assert(bytes@ =~= self.bytes@.subrange(0, i as int));
            }
        }
        proof {
            assert(bytes@ =~= self.bytes@);
        }
        Address { bytes }
    }

    /// Compares two addresses byte for byte.
    pub fn eq_bytes(&self, other: &Address) -> (r: bool)
        ensures
            r == (self@ == other@),
    {
        if self.bytes.len() != other.bytes.len() {
            proof {
                assert(self@.len() != other@.len());
            }
            return false;
        }
        let mut i: usize = 0;
        while i < self.bytes.len()
            invariant
                i <= self.bytes@.len(),
                self.bytes@.len() == other.bytes@.len(),
                forall|j: int| 0 <= j < i ==> self.bytes@[j] == other.bytes@[j],
            decreases self.bytes@.len() - i,
        {
            if self.bytes[i] != other.bytes[i] {
                return false;
            }
            i = i + 1;
        }
        proof {
            assert(self@ =~= other@);
        }
        true
    }
}

/// The relevant parts of an on-chain account: the program that owns it and
/// its raw data bytes.
#[derive(Debug)]
pub struct Account {
    pub owner: Address,
    pub data: Vec<u8>,
}

/// The one-byte discriminant that identifies an account's schema kind.  Its
/// byte encoding is given by [`spec_key_byte`].
#[derive(Clone, Copy, Debug, PartialEq, Eq, Structural)]
pub enum Key {
    Uninitialized,
    EditionV1,
    MasterEditionV1,
    ReservationListV1,
    MetadataV1,
    ReservationListV2,
    MasterEditionV2,
    EditionMarker,
}

/// The byte stored on chain for each discriminant, in declaration order.
pub open spec fn spec_key_byte(k: Key) -> u8 {
    match k {
        Key::Uninitialized => 0,
        Key::EditionV1 => 1,
        Key::MasterEditionV1 => 2,
        Key::ReservationListV1 => 3,
        Key::MetadataV1 => 4,
        Key::ReservationListV2 => 5,
        Key::MasterEditionV2 => 6,
        Key::EditionMarker => 7,
    }
}

/// Executable form of [`spec_key_byte`].
pub fn key_byte(k: Key) -> (r: u8)
    ensures
        r == spec_key_byte(k),
{
    match k {
        Key::Uninitialized => 0,
        Key::EditionV1 => 1,
        Key::MasterEditionV1 => 2,
        Key::ReservationListV1 => 3,
        Key::MetadataV1 => 4,
        Key::ReservationListV2 => 5,
        Key::MasterEditionV2 => 6,
        Key::EditionMarker => 7,
    }
}

/// The discriminant encoded by a byte, if the byte names one.
pub open spec fn spec_key_from_byte(b: u8) -> Option<Key> {
    if b == 0 {
        Some(Key::Uninitialized)
    } else if b == 1 {
        Some(Key::EditionV1)
    } else if b == 2 {
        Some(Key::MasterEditionV1)
    } else if b == 3 {
        Some(Key::ReservationListV1)
    } else if b == 4 {
        Some(Key::MetadataV1)
    } else if b == 5 {
        Some(Key::ReservationListV2)
    } else if b == 6 {
        Some(Key::MasterEditionV2)
    } else if b == 7 {
        Some(Key::EditionMarker)
    } else {
        None
    }
}

/// Executable form of [`spec_key_from_byte`].
pub fn key_from_byte(b: u8) -> (r: Option<Key>)
    ensures
        r == spec_key_from_byte(b),
{
    if b == 0 {
        Some(Key::Uninitialized)
    } else if b == 1 {
        Some(Key::EditionV1)
    } else if b == 2 {
        Some(Key::MasterEditionV1)
    } else if b == 3 {
        Some(Key::ReservationListV1)
    } else if b == 4 {
        Some(Key::MetadataV1)
    } else if b == 5 {
        Some(Key::ReservationListV2)
    } else if b == 6 {
        Some(Key::MasterEditionV2)
    } else if b == 7 {
        Some(Key::EditionMarker)
    } else {
        None
    }
}

/// The string fields of a metadata account.  On chain each is stored at its
/// maximum width, right-padded with zero bytes.
#[derive(Debug)]
pub struct Data {
    pub name: String,
    pub symbol: String,
    pub uri: String,
    pub seller_fee_basis_points: u16,
}

/// A decoded metadata account.
#[derive(Debug)]
pub struct Metadata {
    pub key: Key,
    pub update_authority: Address,
    pub mint: Address,
    pub data: Data,
    pub primary_sale_happened: bool,
    pub is_mutable: bool,
}

/// The mathematical content of a metadata account: every field as a plain
/// value, with strings as their UTF-8 byte sequences.
pub ghost struct MetadataView {
    pub key: Key,
    pub update_authority: Seq<u8>,
    pub mint: Seq<u8>,
    pub name: Seq<u8>,
    pub symbol: Seq<u8>,
    pub uri: Seq<u8>,
    pub seller_fee_basis_points: u16,
    pub primary_sale_happened: bool,
    pub is_mutable: bool,
}

impl View for Metadata {
    type V = MetadataView;

    open spec fn view(&self) -> MetadataView {
        MetadataView {
            key: self.key,
            update_authority: self.update_authority@,
            mint: self.mint@,
            name: encode_utf8(self.data.name@),
            symbol: encode_utf8(self.data.symbol@),
            uri: encode_utf8(self.data.uri@),
            seller_fee_basis_points: self.data.seller_fee_basis_points,
            primary_sale_happened: self.primary_sale_happened,
            is_mutable: self.is_mutable,
        }
    }
}

/// A well-formed metadata value: full-size addresses and string fields within
/// their declared maximum byte widths.
pub open spec fn metadata_wf(m: Metadata) -> bool {
    &&& address_wf(m.update_authority)
    &&& address_wf(m.mint)
    &&& m@.name.len() <= MAX_NAME_LENGTH
    &&& m@.symbol.len() <= MAX_SYMBOL_LENGTH
    &&& m@.uri.len() <= MAX_URI_LENGTH
}

/// A decoded master-edition account.
#[derive(Debug)]
pub struct MasterEditionV2 {
    pub key: Key,
    pub supply: u64,
    pub max_supply: Option<u64>,
}

/// The mathematical content of a master-edition account.
pub ghost struct MasterEditionView {
    pub key: Key,
    pub supply: u64,
    pub max_supply: Option<u64>,
}

impl View for MasterEditionV2 {
    type V = MasterEditionView;

    open spec fn view(&self) -> MasterEditionView {
        MasterEditionView { key: self.key, supply: self.supply, max_supply: self.max_supply }
    }
}

} // verus!
