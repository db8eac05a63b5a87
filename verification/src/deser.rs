//! The byte layout of the account schemas, as verified serialization and
//! deserialization.
//!
//! Scalars are little-endian; strings carry a four-byte length prefix; an
//! optional value carries a one-byte tag; a `bool` is a single `0` or `1`
//! byte.  An account buffer is the serialized image padded on the right with
//! zero bytes to the schema's exact account size, and decoding reads a prefix
//! of the buffer, ignoring the padding.
use vstd::prelude::*;
use vstd::bytes::*;
use vstd::string::StringSliceAdditionalSpecFns;
use vstd::utf8::*;
use vstd::slice::{slice_subrange, slice_to_vec};
use crate::error::MetadataError;
use crate::state::{
    Address, Data, Key, MasterEditionV2, MasterEditionView, Metadata, MetadataView,
    address_wf, key_byte, key_from_byte, metadata_wf, spec_key_byte, spec_key_from_byte,
    MAX_MASTER_EDITION_LEN, MAX_METADATA_LEN, MAX_NAME_LENGTH, MAX_SYMBOL_LENGTH, MAX_URI_LENGTH,
};
use crate::utils::{is_correct_account_type, spec_is_correct_account_type};

verus! {

// ---------------------------------------------------------------- serialize

/// A length-prefixed string field: four length bytes, then the bytes.
pub open spec fn spec_serialize_string(b: Seq<u8>) -> Seq<u8>
    recommends
        b.len() <= u32::MAX,
{
    spec_u32_to_le_bytes(b.len() as u32) + b
}

/// The byte stored for a flag.
pub open spec fn spec_bool_byte(b: bool) -> u8 {
    if b {
        1u8
    } else {
        0u8
    }
}

/// An optional counter: a tag byte, then the value when present.
pub open spec fn spec_serialize_option_u64(o: Option<u64>) -> Seq<u8> {
    match o {
        Option::None => seq![0u8],
        Option::Some(x) => seq![1u8] + spec_u64_to_le_bytes(x),
    }
}

/// The serialized image of a metadata value: discriminant, the two
/// addresses, the three string fields, the fee field, and the two flags.
pub open spec fn spec_serialize_metadata(m: MetadataView) -> Seq<u8> {
    seq![spec_key_byte(m.key)] + m.update_authority + m.mint + spec_serialize_string(m.name)
        + spec_serialize_string(m.symbol) + spec_serialize_string(m.uri) + spec_u16_to_le_bytes(
        m.seller_fee_basis_points,
    ) + seq![spec_bool_byte(m.primary_sale_happened)] + seq![spec_bool_byte(m.is_mutable)]
}

/// The serialized image of a master-edition value.
pub open spec fn spec_serialize_master_edition(e: MasterEditionView) -> Seq<u8> {
    seq![spec_key_byte(e.key)] + spec_u64_to_le_bytes(e.supply) + spec_serialize_option_u64(
        e.max_supply,
    )
}

/// A serialized image padded with zero bytes to the exact account size.
pub open spec fn spec_padded(image: Seq<u8>, size: int) -> Seq<u8>
    recommends
        image.len() <= size,
{
    image + Seq::new((size - image.len()) as nat, |i: int| 0u8)
}

/// The full account buffer holding a metadata value.
pub open spec fn spec_metadata_account_bytes(m: MetadataView) -> Seq<u8> {
    spec_padded(spec_serialize_metadata(m), MAX_METADATA_LEN as int)
}

/// The full account buffer holding a master-edition value.
pub open spec fn spec_master_edition_account_bytes(e: MasterEditionView) -> Seq<u8> {
    spec_padded(spec_serialize_master_edition(e), MAX_MASTER_EDITION_LEN as int)
}

/// Appends a byte slice.
fn push_bytes(out: &mut Vec<u8>, b: &[u8])
    ensures
        final(out)@ == old(out)@ + b@,
{
    let mut i: usize = 0;
    while i < b.len()
        invariant
            i <= b@.len(),
            out@ == old(out)@ + b@.subrange(0, i as int),
        decreases b@.len() - i,
    {
        out.push(b[i]);
        i = i + 1;
        proof {
            assert(out@ =~= old(out)@ + b@.subrange(0, i as int));
        }
    }
    proof {
        assert(old(out)@ + b@.subrange(0, b@.len() as int) =~= old(out)@ + b@);
    }
}

/// Appends a length-prefixed string field.
fn push_string_field(out: &mut Vec<u8>, s: &str)
    requires
        s.spec_bytes().len() <= u32::MAX,
    ensures
        final(out)@ == old(out)@ + spec_serialize_string(s.spec_bytes()),
{
    let b: &[u8] = s.as_bytes();
    let len: u32 = b.len() as u32;
    let lenb: Vec<u8> = u32_to_le_bytes(len);
    push_bytes(out, lenb.as_slice());
    push_bytes(out, b);
    proof {
        assert(old(out)@ + spec_u32_to_le_bytes(len) + b@ =~= old(out)@ + spec_serialize_string(
            s.spec_bytes(),
        ));
    }
}

/// Serializes a metadata value to its exact byte image.
pub fn serialize_metadata(m: &Metadata) -> (r: Vec<u8>)
    requires
        metadata_wf(*m),
    ensures
        r@ == spec_serialize_metadata(m@),
{
    let mut out: Vec<u8> = Vec::new();
    out.push(key_byte(m.key));
    push_bytes(&mut out, m.update_authority.bytes.as_slice());
    push_bytes(&mut out, m.mint.bytes.as_slice());
    push_string_field(&mut out, m.data.name.as_str());
    push_string_field(&mut out, m.data.symbol.as_str());
    push_string_field(&mut out, m.data.uri.as_str());
    let feeb: Vec<u8> = u16_to_le_bytes(m.data.seller_fee_basis_points);
    push_bytes(&mut out, feeb.as_slice());
    out.push(if m.primary_sale_happened { 1 } else { 0 });
    out.push(if m.is_mutable { 1 } else { 0 });
    proof {
        assert(out@ =~= spec_serialize_metadata(m@));
    }
    out
}

/// Serializes a master-edition value to its exact byte image.
pub fn serialize_master_edition(e: &MasterEditionV2) -> (r: Vec<u8>)
    ensures
        r@ == spec_serialize_master_edition(e@),
{
    let mut out: Vec<u8> = Vec::new();
    out.push(key_byte(e.key));
    let supplyb: Vec<u8> = u64_to_le_bytes(e.supply);
    push_bytes(&mut out, supplyb.as_slice());
    match e.max_supply {
        Option::None => {
            out.push(0);
        },
        Option::Some(x) => {
            out.push(1);
            let xb: Vec<u8> = u64_to_le_bytes(x);
            push_bytes(&mut out, xb.as_slice());
        },
    }
    proof {
        assert(out@ =~= spec_serialize_master_edition(e@));
    }
    out
}

/// Pads a serialized image with zero bytes up to `size`.
fn pad_to(out: &mut Vec<u8>, size: usize)
    requires
        old(out)@.len() <= size,
    ensures
        final(out)@ == spec_padded(old(out)@, size as int),
{
    while out.len() < size
        invariant
            old(out)@.len() <= out@.len() <= size,
            out@ == old(out)@ + Seq::new((out@.len() - old(out)@.len()) as nat, |i: int| 0u8),
        decreases size - out@.len(),
    {
        out.push(0);
        proof {
            assert(out@ =~= old(out)@ + Seq::new(
                (out@.len() - old(out)@.len()) as nat,
                |i: int| 0u8,
            ));
        }
    }
    proof {
        assert(out@ =~= spec_padded(old(out)@, size as int));
    }
}

/// The length of a metadata image is determined by its string field lengths.
pub proof fn lemma_serialize_metadata_len(m: MetadataView)
    ensures
        spec_serialize_metadata(m).len() == 17 + m.update_authority.len() + m.mint.len()
            + m.name.len() + m.symbol.len() + m.uri.len(),
{
    lemma_auto_spec_u32_to_from_le_bytes();
    lemma_auto_spec_u16_to_from_le_bytes();
}

/// Serializes a metadata value and pads it to the exact metadata account
/// size.
pub fn serialize_metadata_account(m: &Metadata) -> (r: Vec<u8>)
    requires
        metadata_wf(*m),
    ensures
        r@ == spec_metadata_account_bytes(m@),
        r@.len() == MAX_METADATA_LEN,
{
    let mut out = serialize_metadata(m);
    proof {
        lemma_serialize_metadata_len(m@);
    }
    pad_to(&mut out, MAX_METADATA_LEN);
    out
}

/// The length of a master-edition image is 10 or 18 bytes.
pub proof fn lemma_serialize_master_edition_len(e: MasterEditionView)
    ensures
        spec_serialize_master_edition(e).len() == if e.max_supply is Some {
            18int
        } else {
            10int
        },
{
    lemma_auto_spec_u64_to_from_le_bytes();
}

/// Serializes a master-edition value and pads it to the exact master-edition
/// account size.
pub fn serialize_master_edition_account(e: &MasterEditionV2) -> (r: Vec<u8>)
    ensures
        r@ == spec_master_edition_account_bytes(e@),
        r@.len() == MAX_MASTER_EDITION_LEN,
{
    let mut out = serialize_master_edition(e);
    proof {
        lemma_serialize_master_edition_len(e@);
    }
    pad_to(&mut out, MAX_MASTER_EDITION_LEN);
    out
}

// ------------------------------------------------------------------ decode

/// Reads `n` raw bytes at offset `i`, when they are in bounds.
pub open spec fn dec_bytes(data: Seq<u8>, i: int, n: int) -> Option<(Seq<u8>, int)> {
    if 0 <= i && 0 <= n && i + n <= data.len() {
        Some((data.subrange(i, i + n), i + n))
    } else {
        None
    }
}

/// Reads one byte.
pub open spec fn dec_u8(data: Seq<u8>, i: int) -> Option<(u8, int)> {
    if 0 <= i && i + 1 <= data.len() {
        Some((data[i], i + 1))
    } else {
        None
    }
}

/// Reads a flag byte, which must be `0` or `1`.
pub open spec fn dec_bool(data: Seq<u8>, i: int) -> Option<(bool, int)> {
    match dec_u8(data, i) {
        Some((b, j)) => if b == 0 {
            Some((false, j))
        } else if b == 1 {
            Some((true, j))
        } else {
            None
        },
        None => None,
    }
}

/// Reads a discriminant byte, which must name a schema kind.
pub open spec fn dec_key(data: Seq<u8>, i: int) -> Option<(Key, int)> {
    match dec_u8(data, i) {
        Some((b, j)) => match spec_key_from_byte(b) {
            Some(k) => Some((k, j)),
            None => None,
        },
        None => None,
    }
}

/// Reads a two-byte little-endian integer.
pub open spec fn dec_u16(data: Seq<u8>, i: int) -> Option<(u16, int)> {
    match dec_bytes(data, i, 2) {
        Some((b, j)) => Some((spec_u16_from_le_bytes(b), j)),
        None => None,
    }
}

/// Reads an eight-byte little-endian integer.
pub open spec fn dec_u64(data: Seq<u8>, i: int) -> Option<(u64, int)> {
    match dec_bytes(data, i, 8) {
        Some((b, j)) => Some((spec_u64_from_le_bytes(b), j)),
        None => None,
    }
}

/// Reads an optional eight-byte integer behind its tag byte.
pub open spec fn dec_option_u64(data: Seq<u8>, i: int) -> Option<(Option<u64>, int)> {
    match dec_u8(data, i) {
        Some((t, j)) => if t == 0 {
            Some((Option::None, j))
        } else if t == 1 {
            match dec_u64(data, j) {
                Some((x, k)) => Some((Option::Some(x), k)),
                None => None,
            }
        } else {
            None
        },
        None => None,
    }
}

/// Reads a length-prefixed string field whose bytes must be valid UTF-8.
pub open spec fn dec_string(data: Seq<u8>, i: int) -> Option<(Seq<u8>, int)> {
    match dec_bytes(data, i, 4) {
        Some((lenb, j)) => match dec_bytes(data, j, spec_u32_from_le_bytes(lenb) as int) {
            Some((b, k)) => if valid_utf8(b) {
                Some((b, k))
            } else {
                None
            },
            None => None,
        },
        None => None,
    }
}

/// Decodes the metadata schema from a prefix of the buffer; bytes after the
/// image are ignored.
pub open spec fn spec_decode_metadata(data: Seq<u8>) -> Option<MetadataView> {
    match dec_key(data, 0) {
        Some((key, i1)) => match dec_bytes(data, i1, 32) {
            Some((ua, i2)) => match dec_bytes(data, i2, 32) {
                Some((mint, i3)) => match dec_string(data, i3) {
                    Some((name, i4)) => match dec_string(data, i4) {
                        Some((symbol, i5)) => match dec_string(data, i5) {
                            Some((uri, i6)) => match dec_u16(data, i6) {
                                Some((fee, i7)) => match dec_bool(data, i7) {
                                    Some((psh, i8)) => match dec_bool(data, i8) {
                                        Some((im, _)) => Some(
                                            MetadataView {
                                                key,
                                                update_authority: ua,
                                                mint,
                                                name,
                                                symbol,
                                                uri,
                                                seller_fee_basis_points: fee,
                                                primary_sale_happened: psh,
                                                is_mutable: im,
                                            },
                                        ),
                                        None => None,
                                    },
                                    None => None,
                                },
                                None => None,
                            },
                            None => None,
                        },
                        None => None,
                    },
                    None => None,
                },
                None => None,
            },
            None => None,
        },
        None => None,
    }
}

/// Decodes the master-edition schema from a prefix of the buffer.
pub open spec fn spec_decode_master_edition(data: Seq<u8>) -> Option<MasterEditionView> {
    match dec_key(data, 0) {
        Some((key, i1)) => match dec_u64(data, i1) {
            Some((supply, i2)) => match dec_option_u64(data, i2) {
                Some((max_supply, _)) => Some(MasterEditionView { key, supply, max_supply }),
                None => None,
            },
            None => None,
        },
        None => None,
    }
}

/// Relies on `String::from_utf8`: it succeeds exactly on valid UTF-8 input,
/// and the returned string's UTF-8 encoding is the input bytes unchanged.
#[verifier::external_body]
fn string_from_utf8(v: Vec<u8>) -> (r: Option<String>)
    ensures
        match r {
            Some(s) => valid_utf8(v@) && encode_utf8(s@) == v@,
            None => !valid_utf8(v@),
        },
{
    match std::string::String::from_utf8(v) {
        Ok(s) => Some(s),
        Err(_) => None,
    }
}

/// Reads `n` raw bytes at offset `i`.
fn read_bytes(data: &[u8], i: usize, n: usize) -> (r: Option<(Vec<u8>, usize)>)
    ensures
        match r {
            Some(p) => dec_bytes(data@, i as int, n as int) == Some((p.0@, p.1 as int)),
            None => dec_bytes(data@, i as int, n as int) is None,
        },
{
    if i <= data.len() && n <= data.len() - i {
        let s = slice_subrange(data, i, i + n);
        let v = slice_to_vec(s);
        Some((v, i + n))
    } else {
        None
    }
}

/// Reads one byte.
fn read_u8(data: &[u8], i: usize) -> (r: Option<(u8, usize)>)
    ensures
        match r {
            Some(p) => dec_u8(data@, i as int) == Some((p.0, p.1 as int)),
            None => dec_u8(data@, i as int) is None,
        },
{
    if i < data.len() {
        Some((data[i], i + 1))
    } else {
        None
    }
}

/// Reads a flag byte.
fn read_bool(data: &[u8], i: usize) -> (r: Option<(bool, usize)>)
    ensures
        match r {
            Some(p) => dec_bool(data@, i as int) == Some((p.0, p.1 as int)),
            None => dec_bool(data@, i as int) is None,
        },
{
    match read_u8(data, i) {
        Some((b, j)) => if b == 0 {
            Some((false, j))
        } else if b == 1 {
            Some((true, j))
        } else {
            None
        },
        None => None,
    }
}

/// Reads a two-byte little-endian integer.
fn read_u16(data: &[u8], i: usize) -> (r: Option<(u16, usize)>)
    ensures
        match r {
            Some(p) => dec_u16(data@, i as int) == Some((p.0, p.1 as int)),
            None => dec_u16(data@, i as int) is None,
        },
{
    match read_bytes(data, i, 2) {
        Some((b, j)) => Some((u16_from_le_bytes(b.as_slice()), j)),
        None => None,
    }
}

/// Reads an eight-byte little-endian integer.
fn read_u64(data: &[u8], i: usize) -> (r: Option<(u64, usize)>)
    ensures
        match r {
            Some(p) => dec_u64(data@, i as int) == Some((p.0, p.1 as int)),
            None => dec_u64(data@, i as int) is None,
        },
{
    match read_bytes(data, i, 8) {
        Some((b, j)) => Some((u64_from_le_bytes(b.as_slice()), j)),
        None => None,
    }
}

/// Reads an optional eight-byte integer.
fn read_option_u64(data: &[u8], i: usize) -> (r: Option<(Option<u64>, usize)>)
    ensures
        match r {
            Some(p) => dec_option_u64(data@, i as int) == Some((p.0, p.1 as int)),
            None => dec_option_u64(data@, i as int) is None,
        },
{
    match read_u8(data, i) {
        Some((t, j)) => if t == 0 {
            Some((Option::None, j))
        } else if t == 1 {
            match read_u64(data, j) {
                Some((x, k)) => Some((Option::Some(x), k)),
                None => None,
            }
        } else {
            None
        },
        None => None,
    }
}

/// Reads a length-prefixed UTF-8 string field.
fn read_string(data: &[u8], i: usize) -> (r: Option<(String, usize)>)
    ensures
        match r {
            Some(p) => dec_string(data@, i as int) == Some((encode_utf8(p.0@), p.1 as int)),
            None => dec_string(data@, i as int) is None,
        },
{
    match read_bytes(data, i, 4) {
        Some((lenb, j)) => {
            let len32: u32 = u32_from_le_bytes(lenb.as_slice());
            let n: usize = len32 as usize;
            match read_bytes(data, j, n) {
                Some((b, k)) => {
                    let ghost bytes: Seq<u8> = b@;
                    match string_from_utf8(b) {
                        Some(s) => {
                            proof {
                                assert(dec_string(data@, i as int) == Some(
                                    (bytes, k as int),
                                ));
                            }
                            Some((s, k))
                        },
                        None => None,
                    }
                },
                None => None,
            }
        },
        None => None,
    }
}

/// Reads a discriminant byte.
fn read_key(data: &[u8], i: usize) -> (r: Option<(Key, usize)>)
    ensures
        match r {
            Some(p) => dec_key(data@, i as int) == Some((p.0, p.1 as int)),
            None => dec_key(data@, i as int) is None,
        },
{
    match read_u8(data, i) {
        Some((b, j)) => match key_from_byte(b) {
            Some(k) => Some((k, j)),
            None => None,
        },
        None => None,
    }
}

/// Decodes a metadata value from the buffer, without the structural check.
/// Fails exactly where the spec-level decoder fails.
pub fn deserialize_metadata(data: &[u8]) -> (r: Result<Metadata, MetadataError>)
    ensures
        match r {
            Ok(m) => spec_decode_metadata(data@) == Some(m@),
            Err(e) => spec_decode_metadata(data@) is None && e == MetadataError::InvalidData,
        },
{
    let key = match read_key(data, 0) {
        Some(p) => p,
        None => {
            return Err(MetadataError::InvalidData);
        },
    };
    let ua = match read_bytes(data, key.1, 32) {
        Some(p) => p,
        None => {
            return Err(MetadataError::InvalidData);
        },
    };
    let mint = match read_bytes(data, ua.1, 32) {
        Some(p) => p,
        None => {
            return Err(MetadataError::InvalidData);
        },
    };
    let name = match read_string(data, mint.1) {
        Some(p) => p,
        None => {
            return Err(MetadataError::InvalidData);
        },
    };
    let symbol = match read_string(data, name.1) {
        Some(p) => p,
        None => {
            return Err(MetadataError::InvalidData);
        },
    };
    let uri = match read_string(data, symbol.1) {
        Some(p) => p,
        None => {
            return Err(MetadataError::InvalidData);
        },
    };
    let fee = match read_u16(data, uri.1) {
        Some(p) => p,
        None => {
            return Err(MetadataError::InvalidData);
        },
    };
    let psh = match read_bool(data, fee.1) {
        Some(p) => p,
        None => {
            return Err(MetadataError::InvalidData);
        },
    };
    let im = match read_bool(data, psh.1) {
        Some(p) => p,
        None => {
            return Err(MetadataError::InvalidData);
        },
    };
    Ok(
        Metadata {
            key: key.0,
            update_authority: Address { bytes: ua.0 },
            mint: Address { bytes: mint.0 },
            data: Data {
                name: name.0,
                symbol: symbol.0,
                uri: uri.0,
                seller_fee_basis_points: fee.0,
            },
            primary_sale_happened: psh.0,
            is_mutable: im.0,
        },
    )
}

/// Decodes a master-edition value from the buffer, without the structural
/// check.  Fails exactly where the spec-level decoder fails.
pub fn deserialize_master_edition(data: &[u8]) -> (r: Result<MasterEditionV2, MetadataError>)
    ensures
        match r {
            Ok(e) => spec_decode_master_edition(data@) == Some(e@),
            Err(e) => spec_decode_master_edition(data@) is None && e
                == MetadataError::InvalidData,
        },
{
    let key = match read_key(data, 0) {
        Some(p) => p,
        None => {
            return Err(MetadataError::InvalidData);
        },
    };
    let supply = match read_u64(data, key.1) {
        Some(p) => p,
        None => {
            return Err(MetadataError::InvalidData);
        },
    };
    let max_supply = match read_option_u64(data, supply.1) {
        Some(p) => p,
        None => {
            return Err(MetadataError::InvalidData);
        },
    };
    Ok(MasterEditionV2 { key: key.0, supply: supply.0, max_supply: max_supply.0 })
}

// -------------------------------------------------------------- round trip

/// A well-formed metadata view: full-size addresses, string fields within
/// their maximum widths, and string bytes that are valid UTF-8.
pub open spec fn metadata_view_wf(v: MetadataView) -> bool {
    &&& v.update_authority.len() == 32
    &&& v.mint.len() == 32
    &&& v.name.len() <= MAX_NAME_LENGTH
    &&& v.symbol.len() <= MAX_SYMBOL_LENGTH
    &&& v.uri.len() <= MAX_URI_LENGTH
    &&& valid_utf8(v.name)
    &&& valid_utf8(v.symbol)
    &&& valid_utf8(v.uri)
}

/// The view of every well-formed metadata value is well formed.
pub proof fn lemma_metadata_wf_view(m: Metadata)
    requires
        metadata_wf(m),
    ensures
        metadata_view_wf(m@),
{
    encode_utf8_valid_utf8(m.data.name@);
    encode_utf8_valid_utf8(m.data.symbol@);
    encode_utf8_valid_utf8(m.data.uri@);
}

/// Round trip: decoding a serialized metadata image gives back exactly the
/// value that was encoded, whatever bytes follow the image.
#[verifier::spinoff_prover]
#[verifier::rlimit(80)]
pub proof fn lemma_metadata_round_trip(v: MetadataView, rest: Seq<u8>)
    requires
        metadata_view_wf(v),
    ensures
        spec_decode_metadata(spec_serialize_metadata(v) + rest) == Some(v),
{
    lemma_auto_spec_u32_to_from_le_bytes();
    lemma_auto_spec_u16_to_from_le_bytes();
    let data = spec_serialize_metadata(v) + rest;
    let n1 = v.name.len() as int;
    let n2 = v.symbol.len() as int;
    let n3 = v.uri.len() as int;
    assert(data.len() == 81 + n1 + n2 + n3 + rest.len());
    assert(data[0] == spec_key_byte(v.key));
    assert(spec_key_from_byte(spec_key_byte(v.key)) == Some(v.key));
    assert(dec_key(data, 0) == Some((v.key, 1int)));
    assert(data.subrange(1, 33) =~= v.update_authority);
    assert(dec_bytes(data, 1, 32) == Some((v.update_authority, 33int)));
    assert(data.subrange(33, 65) =~= v.mint);
    assert(dec_bytes(data, 33, 32) == Some((v.mint, 65int)));
    assert(data.subrange(65, 69) =~= spec_u32_to_le_bytes(v.name.len() as u32));
    assert(data.subrange(69, 69 + n1) =~= v.name);
    assert(dec_string(data, 65) == Some((v.name, 69 + n1)));
    assert(data.subrange(69 + n1, 73 + n1) =~= spec_u32_to_le_bytes(v.symbol.len() as u32));
    assert(data.subrange(73 + n1, 73 + n1 + n2) =~= v.symbol);
    assert(dec_string(data, 69 + n1) == Some((v.symbol, 73 + n1 + n2)));
    assert(data.subrange(73 + n1 + n2, 77 + n1 + n2) =~= spec_u32_to_le_bytes(
        v.uri.len() as u32,
    ));
    assert(data.subrange(77 + n1 + n2, 77 + n1 + n2 + n3) =~= v.uri);
    assert(dec_string(data, 73 + n1 + n2) == Some((v.uri, 77 + n1 + n2 + n3)));
    let i6 = 77 + n1 + n2 + n3;
    assert(data.subrange(i6, i6 + 2) =~= spec_u16_to_le_bytes(v.seller_fee_basis_points));
    assert(dec_u16(data, i6) == Some((v.seller_fee_basis_points, i6 + 2)));
    assert(data[i6 + 2] == spec_bool_byte(v.primary_sale_happened));
    assert(dec_bool(data, i6 + 2) == Some((v.primary_sale_happened, i6 + 3)));
    assert(data[i6 + 3] == spec_bool_byte(v.is_mutable));
    assert(dec_bool(data, i6 + 3) == Some((v.is_mutable, i6 + 4)));
    assert(spec_decode_metadata(data) == Some(v));
}

/// Round trip through the full account buffer: the padded image passes the
/// structural check for its own discriminant and exact account size, and
/// decodes back to exactly the encoded value.
pub proof fn lemma_metadata_account_round_trip(v: MetadataView)
    requires
        metadata_view_wf(v),
    ensures
        spec_metadata_account_bytes(v).len() == MAX_METADATA_LEN,
        spec_is_correct_account_type(
            spec_metadata_account_bytes(v),
            v.key,
            MAX_METADATA_LEN as int,
        ),
        spec_decode_metadata(spec_metadata_account_bytes(v)) == Some(v),
{
    lemma_serialize_metadata_len(v);
    let s = spec_serialize_metadata(v);
    let pad = Seq::new((MAX_METADATA_LEN - s.len()) as nat, |i: int| 0u8);
    lemma_metadata_round_trip(v, pad);
    assert(spec_metadata_account_bytes(v) == s + pad);
    assert((s + pad)[0] == spec_key_byte(v.key));
}

/// Round trip: decoding a serialized master-edition image gives back exactly
/// the value that was encoded, whatever bytes follow the image.
pub proof fn lemma_master_edition_round_trip(e: MasterEditionView, rest: Seq<u8>)
    ensures
        spec_decode_master_edition(spec_serialize_master_edition(e) + rest) == Some(e),
{
    lemma_auto_spec_u64_to_from_le_bytes();
    let data = spec_serialize_master_edition(e) + rest;
    assert(data[0] == spec_key_byte(e.key));
    assert(spec_key_from_byte(spec_key_byte(e.key)) == Some(e.key));
    assert(dec_key(data, 0) == Some((e.key, 1int)));
    assert(data.subrange(1, 9) =~= spec_u64_to_le_bytes(e.supply));
    assert(dec_u64(data, 1) == Some((e.supply, 9int)));
    match e.max_supply {
        Option::None => {
            assert(data[9] == 0);
            assert(dec_option_u64(data, 9) == Some((Option::None::<u64>, 10int)));
        },
        Option::Some(x) => {
            assert(data[9] == 1);
            assert(data.subrange(10, 18) =~= spec_u64_to_le_bytes(x));
            assert(dec_u64(data, 10) == Some((x, 18int)));
            assert(dec_option_u64(data, 9) == Some((Option::Some(x), 18int)));
        },
    }
    assert(spec_decode_master_edition(data) == Some(e));
}

/// Round trip through the full master-edition account buffer.
pub proof fn lemma_master_edition_account_round_trip(e: MasterEditionView)
    ensures
        spec_master_edition_account_bytes(e).len() == MAX_MASTER_EDITION_LEN,
        spec_is_correct_account_type(
            spec_master_edition_account_bytes(e),
            e.key,
            MAX_MASTER_EDITION_LEN as int,
        ),
        spec_decode_master_edition(spec_master_edition_account_bytes(e)) == Some(e),
{
    lemma_serialize_master_edition_len(e);
    let s = spec_serialize_master_edition(e);
    let pad = Seq::new((MAX_MASTER_EDITION_LEN - s.len()) as nat, |i: int| 0u8);
    lemma_master_edition_round_trip(e, pad);
    assert(spec_master_edition_account_bytes(e) == s + pad);
    assert((s + pad)[0] == spec_key_byte(e.key));
}

/// An account schema that can be decoded from a raw buffer.
pub trait BorshAccount: Sized + View {
    /// The spec-level decoder for this schema.
    spec fn spec_decode(data: Seq<u8>) -> Option<Self::V>;

    /// Decodes the buffer; fails exactly where the spec-level decoder fails.
    fn deserialize_unchecked(data: &[u8]) -> (r: Result<Self, MetadataError>)
        ensures
            match r {
                Ok(v) => Self::spec_decode(data@) == Some(v@),
                Err(e) => Self::spec_decode(data@) is None && e == MetadataError::InvalidData,
            },
    ;
}

impl BorshAccount for Metadata {
    open spec fn spec_decode(data: Seq<u8>) -> Option<MetadataView> {
        spec_decode_metadata(data)
    }

    fn deserialize_unchecked(data: &[u8]) -> (r: Result<Self, MetadataError>) {
        deserialize_metadata(data)
    }
}

impl BorshAccount for MasterEditionV2 {
    open spec fn spec_decode(data: Seq<u8>) -> Option<MasterEditionView> {
        spec_decode_master_edition(data)
    }

    fn deserialize_unchecked(data: &[u8]) -> (r: Result<Self, MetadataError>) {
        deserialize_master_edition(data)
    }
}

/// Checked deserialization: first the structural check — the leading byte
/// must be the expected discriminant or the uninitialized sentinel and the
/// length must equal the expected size exactly, anything else is a
/// `DataTypeMismatch` and nothing is decoded — then the schema decode.
pub fn try_from_slice_checked<T: BorshAccount>(data: &[u8], data_type: Key, data_size: usize) -> (r:
    Result<T, MetadataError>)
    requires
        data@.len() > 0,
    ensures
        !spec_is_correct_account_type(data@, data_type, data_size as int) ==> r == Err::<
            T,
            MetadataError,
        >(MetadataError::DataTypeMismatch),
        spec_is_correct_account_type(data@, data_type, data_size as int) ==> match T::spec_decode(
            data@,
        ) {
            Some(g) => r matches Ok(v) && v@ == g,
            None => r == Err::<T, MetadataError>(MetadataError::InvalidData),
        },
{
    if !is_correct_account_type(data, data_type, data_size) {
        return Err(MetadataError::DataTypeMismatch);
    }
    T::deserialize_unchecked(data)
}

} // verus!
