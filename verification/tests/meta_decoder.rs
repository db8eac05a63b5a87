use meta_decoder::deser::{
    serialize_master_edition, serialize_master_edition_account, serialize_metadata,
    serialize_metadata_account, try_from_slice_checked,
};
use meta_decoder::edition::MasterEditionManager;
use meta_decoder::error::MetadataError;
use meta_decoder::pda::{get_master_edition_pda, get_metadata_pda, metaplex_program_id};
use meta_decoder::state::{
    Account, Address, Data, Key, MasterEditionV2, Metadata, key_byte, key_from_byte,
    MAX_MASTER_EDITION_LEN, MAX_METADATA_LEN, MAX_NAME_LENGTH, MAX_SYMBOL_LENGTH, MAX_URI_LENGTH,
};
use meta_decoder::utils::{
    assert_owned_by, is_correct_account_type, puff_out_data_fields, puffed_out_string,
    zero_account,
};

fn addr(fill: u8) -> Address {
    Address::from_bytes(vec![fill; 32]).unwrap()
}

fn sample_metadata() -> Metadata {
    Metadata {
        key: Key::MetadataV1,
        update_authority: addr(7),
        mint: addr(9),
        data: Data {
            name: String::from("Test NFT"),
            symbol: String::from("TST"),
            uri: String::from("https://example.invalid/meta.json"),
            seller_fee_basis_points: 250,
        },
        primary_sale_happened: false,
        is_mutable: true,
    }
}

#[test]
fn program_id_has_expected_bytes() {
    let id = metaplex_program_id();
    let expected: Vec<u8> = vec![
        11, 112, 101, 177, 227, 209, 124, 69, 56, 157, 82, 127, 107, 4, 195, 205, 88, 184, 108,
        115, 26, 160, 253, 181, 73, 182, 209, 188, 3, 248, 41, 70,
    ];
    assert_eq!(id.bytes, expected);
}

#[test]
fn metadata_pda_is_deterministic() {
    let mint = addr(42);
    let first = get_metadata_pda(&mint).unwrap();
    let second = get_metadata_pda(&mint).unwrap();
    assert!(first.eq_bytes(&second));
    assert_eq!(first.bytes.len(), 32);
    // The derivation must actually transform its input.
    assert!(!first.eq_bytes(&mint));
}

#[test]
fn master_edition_pda_is_deterministic_and_differs_from_metadata_pda() {
    let mint = addr(42);
    let (first, first_bump) = get_master_edition_pda(&mint).unwrap();
    let (second, second_bump) = get_master_edition_pda(&mint).unwrap();
    assert!(first.eq_bytes(&second));
    assert_eq!(first_bump, second_bump);
    let metadata_pda = get_metadata_pda(&mint).unwrap();
    assert!(!first.eq_bytes(&metadata_pda));
}

#[test]
fn key_bytes_round_trip() {
    let keys = [
        Key::Uninitialized,
        Key::EditionV1,
        Key::MasterEditionV1,
        Key::ReservationListV1,
        Key::MetadataV1,
        Key::ReservationListV2,
        Key::MasterEditionV2,
        Key::EditionMarker,
    ];
    for (i, k) in keys.iter().enumerate() {
        assert_eq!(key_byte(*k), i as u8);
        assert_eq!(key_from_byte(i as u8), Some(*k));
    }
    assert_eq!(key_from_byte(8), None);
    assert_eq!(key_from_byte(255), None);
}

#[test]
fn structural_check_accepts_expected_and_uninitialized() {
    let mut data = vec![0u8; MAX_METADATA_LEN];
    data[0] = key_byte(Key::MetadataV1);
    assert!(is_correct_account_type(&data, Key::MetadataV1, MAX_METADATA_LEN));
    data[0] = key_byte(Key::Uninitialized);
    assert!(is_correct_account_type(&data, Key::MetadataV1, MAX_METADATA_LEN));
}

#[test]
fn structural_check_rejects_wrong_discriminant_or_size() {
    let mut data = vec![0u8; MAX_METADATA_LEN];
    data[0] = key_byte(Key::EditionV1);
    assert!(!is_correct_account_type(&data, Key::MetadataV1, MAX_METADATA_LEN));
    let mut short = vec![0u8; MAX_METADATA_LEN - 1];
    short[0] = key_byte(Key::MetadataV1);
    assert!(!is_correct_account_type(&short, Key::MetadataV1, MAX_METADATA_LEN));
}

#[test]
fn checked_deserialize_rejects_wrong_discriminant() {
    let mut data = vec![0u8; MAX_METADATA_LEN];
    data[0] = key_byte(Key::MasterEditionV2);
    let r: Result<Metadata, MetadataError> =
        try_from_slice_checked(&data, Key::MetadataV1, MAX_METADATA_LEN);
    assert_eq!(r.unwrap_err(), MetadataError::DataTypeMismatch);
}

#[test]
fn checked_deserialize_rejects_wrong_size() {
    let m = sample_metadata();
    let mut data = serialize_metadata_account(&m);
    data.push(0);
    let r: Result<Metadata, MetadataError> =
        try_from_slice_checked(&data, Key::MetadataV1, MAX_METADATA_LEN);
    assert_eq!(r.unwrap_err(), MetadataError::DataTypeMismatch);
}

#[test]
fn checked_deserialize_rejects_malformed_flag_byte() {
    // Minimal image: uninitialized key, zero addresses, empty strings.  The
    // first flag byte then sits at offset 79; any value above one is not a
    // bool and must fail the decode, not the structural check.
    let mut data = vec![0u8; MAX_METADATA_LEN];
    data[79] = 2;
    let r: Result<Metadata, MetadataError> =
        try_from_slice_checked(&data, Key::MetadataV1, MAX_METADATA_LEN);
    assert_eq!(r.unwrap_err(), MetadataError::InvalidData);
}

#[test]
fn checked_deserialize_rejects_invalid_utf8_name() {
    let mut data = vec![0u8; MAX_METADATA_LEN];
    // name length = 1 at offset 65, name byte 0xFF is not valid UTF-8.
    data[65] = 1;
    data[69] = 0xFF;
    let r: Result<Metadata, MetadataError> =
        try_from_slice_checked(&data, Key::MetadataV1, MAX_METADATA_LEN);
    assert_eq!(r.unwrap_err(), MetadataError::InvalidData);
}

#[test]
fn metadata_round_trips_through_account_buffer() {
    let m = sample_metadata();
    let data = serialize_metadata_account(&m);
    assert_eq!(data.len(), MAX_METADATA_LEN);
    let back: Metadata = try_from_slice_checked(&data, Key::MetadataV1, MAX_METADATA_LEN).unwrap();
    assert_eq!(back.key, m.key);
    assert!(back.update_authority.eq_bytes(&m.update_authority));
    assert!(back.mint.eq_bytes(&m.mint));
    assert_eq!(back.data.name, m.data.name);
    assert_eq!(back.data.symbol, m.data.symbol);
    assert_eq!(back.data.uri, m.data.uri);
    assert_eq!(back.data.seller_fee_basis_points, m.data.seller_fee_basis_points);
    assert_eq!(back.primary_sale_happened, m.primary_sale_happened);
    assert_eq!(back.is_mutable, m.is_mutable);
}

#[test]
fn master_edition_round_trips_with_and_without_max_supply() {
    for max_supply in [None, Some(0u64), Some(1000u64), Some(u64::MAX)] {
        let e = MasterEditionV2 { key: Key::MasterEditionV2, supply: 5, max_supply };
        let data = serialize_master_edition_account(&e);
        assert_eq!(data.len(), MAX_MASTER_EDITION_LEN);
        let back: MasterEditionV2 =
            try_from_slice_checked(&data, Key::MasterEditionV2, MAX_MASTER_EDITION_LEN).unwrap();
        assert_eq!(back.key, e.key);
        assert_eq!(back.supply, e.supply);
        assert_eq!(back.max_supply, e.max_supply);
    }
}

#[test]
fn master_edition_image_matches_borsh_wire_format() {
    let e = MasterEditionV2 { key: Key::MasterEditionV2, supply: 7, max_supply: Some(3) };
    let image = serialize_master_edition(&e);
    let reference = borsh::to_vec(&(6u8, 7u64, Some(3u64))).unwrap();
    assert_eq!(image, reference);
}

#[test]
fn metadata_image_matches_borsh_wire_format() {
    let m = sample_metadata();
    let image = serialize_metadata(&m);
    let reference = borsh::to_vec(&(
        4u8,
        [7u8; 32],
        [9u8; 32],
        String::from("Test NFT"),
        String::from("TST"),
        String::from("https://example.invalid/meta.json"),
        250u16,
        false,
        true,
    ))
    .unwrap();
    assert_eq!(image, reference);
}

#[test]
fn puffed_out_string_pads_with_zero_bytes() {
    let s = "abc";
    let r = puffed_out_string(s, 8);
    assert_eq!(r.len(), 8);
    assert_eq!(&r.as_bytes()[..3], b"abc");
    assert_eq!(&r.as_bytes()[3..], &[0u8; 5]);
}

#[test]
fn puffed_out_string_at_exact_width_is_unchanged() {
    let s = "exact";
    let r = puffed_out_string(s, 5);
    assert_eq!(r.as_bytes(), b"exact");
}

#[test]
fn puffed_out_empty_string_is_all_zeroes() {
    let r = puffed_out_string("", 4);
    assert_eq!(r.as_bytes(), &[0u8; 4]);
}

#[test]
fn zero_account_pads_like_puffed_out_string() {
    let r = zero_account("xy", 6);
    assert_eq!(r.len(), 6);
    assert_eq!(&r.as_bytes()[..2], b"xy");
    assert_eq!(&r.as_bytes()[2..], &[0u8; 4]);
}

#[test]
fn puff_out_data_fields_pads_every_string_field() {
    let mut m = sample_metadata();
    let name = m.data.name.clone();
    let symbol = m.data.symbol.clone();
    let uri = m.data.uri.clone();
    puff_out_data_fields(&mut m);
    assert_eq!(m.data.name.len(), MAX_NAME_LENGTH);
    assert_eq!(m.data.symbol.len(), MAX_SYMBOL_LENGTH);
    assert_eq!(m.data.uri.len(), MAX_URI_LENGTH);
    assert_eq!(&m.data.name.as_bytes()[..name.len()], name.as_bytes());
    assert!(m.data.name.as_bytes()[name.len()..].iter().all(|b| *b == 0));
    assert_eq!(&m.data.symbol.as_bytes()[..symbol.len()], symbol.as_bytes());
    assert_eq!(&m.data.uri.as_bytes()[..uri.len()], uri.as_bytes());
    assert_eq!(m.key, Key::MetadataV1);
    assert_eq!(m.data.seller_fee_basis_points, 250);
    assert!(m.is_mutable);
}

#[test]
fn puffed_metadata_still_round_trips() {
    let mut m = sample_metadata();
    puff_out_data_fields(&mut m);
    let image = serialize_metadata(&m);
    // With every string at its maximum width the image fills the account.
    assert_eq!(image.len(), MAX_METADATA_LEN);
    let back: Metadata = try_from_slice_checked(&image, Key::MetadataV1, MAX_METADATA_LEN).unwrap();
    assert_eq!(back.data.name, m.data.name);
    assert_eq!(back.data.uri, m.data.uri);
}

#[test]
fn assert_owned_by_accepts_matching_owner() {
    let account = Account { owner: addr(3), data: vec![] };
    assert!(assert_owned_by(&account, &addr(3)).is_ok());
}

#[test]
fn assert_owned_by_rejects_other_owner() {
    let account = Account { owner: addr(3), data: vec![] };
    assert_eq!(assert_owned_by(&account, &addr(4)).unwrap_err(), MetadataError::IncorrectOwner);
}

#[test]
fn create_master_edition_flow() {
    // A well-formed mint/metadata pair: the manager derives the edition
    // address, the runtime would materialize the accounts; here their byte
    // images are built exactly as the program lays them out, and read back.
    let authority = addr(11);
    let owner = addr(13);
    let mint = addr(17);
    let metadata_pubkey = get_metadata_pda(&mint).unwrap();
    let manager = MasterEditionManager::new(
        authority.dup(),
        owner.dup(),
        metadata_pubkey.dup(),
        mint.dup(),
    )
    .unwrap();
    assert!(manager.authority.eq_bytes(&authority));
    assert!(manager.mint_pubkey.eq_bytes(&mint));

    let metadata = Metadata {
        key: Key::MetadataV1,
        update_authority: authority.dup(),
        mint: mint.dup(),
        data: Data {
            name: String::from("Edition Test"),
            symbol: String::from("ED"),
            uri: String::from("https://example.invalid/e.json"),
            seller_fee_basis_points: 0,
        },
        primary_sale_happened: false,
        is_mutable: true,
    };
    let metadata_account = Account {
        owner: metaplex_program_id(),
        data: serialize_metadata_account(&metadata),
    };
    assert!(assert_owned_by(&metadata_account, &metaplex_program_id()).is_ok());
    let decoded: Metadata =
        try_from_slice_checked(&metadata_account.data, Key::MetadataV1, MAX_METADATA_LEN).unwrap();
    assert!(decoded.mint.eq_bytes(&mint));
    assert!(decoded.update_authority.eq_bytes(&authority));

    let edition = MasterEditionV2 { key: Key::MasterEditionV2, supply: 0, max_supply: Some(1) };
    let edition_account = Account {
        owner: metaplex_program_id(),
        data: serialize_master_edition_account(&edition),
    };
    let read_back = manager.get_data(&edition_account).unwrap();
    assert_eq!(read_back.supply, 0);
    assert_eq!(read_back.max_supply, Some(1));
    let read_back_again =
        MasterEditionManager::get_data_from_account(&edition_account).unwrap();
    assert_eq!(read_back_again.max_supply, Some(1));
}
