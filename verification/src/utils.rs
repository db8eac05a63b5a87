//! Validation guards and fixed-width string padding.
use vstd::prelude::*;
use vstd::string::StringSliceAdditionalSpecFns;
use vstd::string::StringExecFns;
use vstd::utf8::*;
use crate::error::MetadataError;
use crate::state::{
    Account, Address, Key, Metadata, spec_key_byte, MAX_NAME_LENGTH, MAX_SYMBOL_LENGTH,
    MAX_URI_LENGTH,
};

verus! {

/// UTF-8 encoding distributes over concatenation of character sequences.
pub proof fn lemma_encode_utf8_concat(a: Seq<char>, b: Seq<char>)
    ensures
        encode_utf8(a + b) == encode_utf8(a) + encode_utf8(b),
    decreases a.len(),
{
    if a.len() == 0 {
        assert(a + b =~= b);
        assert(encode_utf8(a) + encode_utf8(b) =~= encode_utf8(b));
    } else {
        assert((a + b).len() > 0);
        assert((a + b)[0] == a[0]);
        assert((a + b).drop_first() =~= a.drop_first() + b);
        lemma_encode_utf8_concat(a.drop_first(), b);
        assert(encode_utf8(a + b) =~= encode_utf8(a) + encode_utf8(b));
    }
}

/// The UTF-8 encoding of a single NUL character is a single zero byte.
pub proof fn lemma_encode_utf8_nul()
    ensures
        encode_utf8(seq!['\u{0}']) =~= seq![0u8],
{
    let s = seq!['\u{0}'];
    assert('\u{0}' as u32 == 0);
    assert((0u32 & 0x7F) as u8 == 0) by (bit_vector);
    assert(has_width_1_encoding(0u32));
    assert(encode_scalar(0u32) =~= seq![0u8]);
    assert(s.drop_first() =~= Seq::<char>::empty());
    assert(encode_utf8(Seq::<char>::empty()) =~= Seq::<u8>::empty());
    assert(encode_utf8(s) =~= encode_scalar('\u{0}' as u32) + encode_utf8(s.drop_first()));
}

/// A byte sequence padded on the right with zero bytes up to the given width.
pub open spec fn spec_puffed(b: Seq<u8>, size: int) -> Seq<u8>
    recommends
        b.len() <= size,
{
    b + Seq::new((size - b.len()) as nat, |i: int| 0u8)
}

/// Pads the string with NUL bytes to exactly `size` bytes, so that
/// byte-level comparisons against the maximum-width buffer are deterministic.
/// The result holds the original bytes followed by exactly
/// `size - len` zero bytes.
pub fn puffed_out_string(s: &str, size: usize) -> (r: String)
    requires
        s.spec_bytes().len() <= size,
    ensures
        encode_utf8(r@) == spec_puffed(s.spec_bytes(), size as int),
        encode_utf8(r@).len() == size,
        r@ == s@ + Seq::new((size - s.spec_bytes().len()) as nat, |i: int| '\u{0}'),
{
    let ghost base: int = s.spec_bytes().len() as int;
    let mut r: String = s.to_owned();
    let mut n: usize = s.len();
    proof {
        assert(encode_utf8(r@) == s.spec_bytes());
        assert(r@ =~= s@ + Seq::new((n - base) as nat, |i: int| '\u{0}'));
        assert(encode_utf8(r@) =~= s.spec_bytes() + Seq::new((n - base) as nat, |i: int| 0u8));
    }
    while n < size
        invariant
            base <= n <= size,
            n == encode_utf8(r@).len(),
            r@ == s@ + Seq::new((n - base) as nat, |i: int| '\u{0}'),
            encode_utf8(r@) == s.spec_bytes() + Seq::new((n - base) as nat, |i: int| 0u8),
            base == s.spec_bytes().len(),
        decreases size - n,
    {
        let ghost prev: Seq<char> = r@;
        r.append("\u{0}");
        n = n + 1;
        proof {
            reveal_strlit("\u{0}");
            assert("\u{0}"@ =~= seq!['\u{0}']);
            lemma_encode_utf8_concat(prev, seq!['\u{0}']);
            lemma_encode_utf8_nul();
            assert(encode_utf8(r@) =~= encode_utf8(prev) + seq![0u8]);
            assert(r@ =~= s@ + Seq::new((n - base) as nat, |i: int| '\u{0}'));
            assert(encode_utf8(r@) =~= s.spec_bytes() + Seq::new((n - base) as nat, |i: int| 0u8));
        }
    }
    proof {
        assert(encode_utf8(r@) =~= spec_puffed(s.spec_bytes(), size as int));
    }
    r
}

/// Pads the string with NUL bytes to exactly `size` bytes; used to build the
/// fully zeroed image of an account field.
pub fn zero_account(s: &str, size: usize) -> (r: String)
    requires
        s.spec_bytes().len() <= size,
    ensures
        encode_utf8(r@) == spec_puffed(s.spec_bytes(), size as int),
        encode_utf8(r@).len() == size,
        r@ == s@ + Seq::new((size - s.spec_bytes().len()) as nat, |i: int| '\u{0}'),
{
    let ghost base: int = s.spec_bytes().len() as int;
    let mut r: String = s.to_owned();
    let mut n: usize = s.len();
    proof {
        assert(encode_utf8(r@) == s.spec_bytes());
        assert(r@ =~= s@ + Seq::new((n - base) as nat, |i: int| '\u{0}'));
        assert(encode_utf8(r@) =~= s.spec_bytes() + Seq::new((n - base) as nat, |i: int| 0u8));
    }
    while n < size
        invariant
            base <= n <= size,
            n == encode_utf8(r@).len(),
            r@ == s@ + Seq::new((n - base) as nat, |i: int| '\u{0}'),
            encode_utf8(r@) == s.spec_bytes() + Seq::new((n - base) as nat, |i: int| 0u8),
            base == s.spec_bytes().len(),
        decreases size - n,
    {
        let ghost prev: Seq<char> = r@;
        r.append("\u{0}");
        n = n + 1;
        proof {
            reveal_strlit("\u{0}");
            assert("\u{0}"@ =~= seq!['\u{0}']);
            lemma_encode_utf8_concat(prev, seq!['\u{0}']);
            lemma_encode_utf8_nul();
            assert(encode_utf8(r@) =~= encode_utf8(prev) + seq![0u8]);
            assert(r@ =~= s@ + Seq::new((n - base) as nat, |i: int| '\u{0}'));
            assert(encode_utf8(r@) =~= s.spec_bytes() + Seq::new((n - base) as nat, |i: int| 0u8));
        }
    }
    proof {
        assert(encode_utf8(r@) =~= spec_puffed(s.spec_bytes(), size as int));
    }
    r
}

/// Pads every string field of the metadata to its maximum byte width, leaving
/// all other fields unchanged.
pub fn puff_out_data_fields(metadata: &mut Metadata)
    requires
        old(metadata)@.name.len() <= MAX_NAME_LENGTH,
        old(metadata)@.symbol.len() <= MAX_SYMBOL_LENGTH,
        old(metadata)@.uri.len() <= MAX_URI_LENGTH,
    ensures
        final(metadata)@.name == spec_puffed(old(metadata)@.name, MAX_NAME_LENGTH as int),
        final(metadata)@.symbol == spec_puffed(old(metadata)@.symbol, MAX_SYMBOL_LENGTH as int),
        final(metadata)@.uri == spec_puffed(old(metadata)@.uri, MAX_URI_LENGTH as int),
        final(metadata)@.key == old(metadata)@.key,
        final(metadata)@.update_authority == old(metadata)@.update_authority,
        final(metadata)@.mint == old(metadata)@.mint,
        final(metadata)@.seller_fee_basis_points == old(metadata)@.seller_fee_basis_points,
        final(metadata)@.primary_sale_happened == old(metadata)@.primary_sale_happened,
        final(metadata)@.is_mutable == old(metadata)@.is_mutable,
    {
    let name = puffed_out_string(metadata.data.name.as_str(), MAX_NAME_LENGTH);
    metadata.data.name = name;
    let symbol = puffed_out_string(metadata.data.symbol.as_str(), MAX_SYMBOL_LENGTH);
    metadata.data.symbol = symbol;
    let uri = puffed_out_string(metadata.data.uri.as_str(), MAX_URI_LENGTH);
    metadata.data.uri = uri;
}

/// Succeeds exactly when the account's owner field equals the expected
/// owner; any other owner is rejected with `IncorrectOwner`.
pub fn assert_owned_by(account: &Account, owner: &Address) -> (r: Result<(), MetadataError>)
    ensures
        r is Ok <==> account.owner@ == owner@,
        r is Err ==> r == Err::<(), MetadataError>(MetadataError::IncorrectOwner),
{
    if !account.owner.eq_bytes(owner) {
        Err(MetadataError::IncorrectOwner)
    } else {
        Ok(())
    }
}

/// The structural invariant of an account buffer: the leading byte is the
/// expected discriminant or the uninitialized sentinel, and the total length
/// equals the expected size exactly.
pub open spec fn spec_is_correct_account_type(data: Seq<u8>, data_type: Key, data_size: int) -> bool
    recommends
        data.len() > 0,
{
    (data[0] == spec_key_byte(data_type) || data[0] == spec_key_byte(Key::Uninitialized))
        && data.len() == data_size
}

/// Checks the structural invariant of an account buffer.
pub fn is_correct_account_type(data: &[u8], data_type: Key, data_size: usize) -> (r: bool)
    requires
        data@.len() > 0,
    ensures
        r == spec_is_correct_account_type(data@, data_type, data_size as int),
{
    (data[0] == crate::state::key_byte(data_type) || data[0] == crate::state::key_byte(
        Key::Uninitialized,
    )) && (data.len() == data_size)
}

} // verus!
