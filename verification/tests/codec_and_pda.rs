use custody_engine::pda::validate_pda;
use custody_engine::state::{
    decode_contributor, decode_escrow, decode_fundraiser, encode_contributor, encode_escrow,
    encode_fundraiser, Contributor, Escrow, Fundraiser, CONTRIBUTOR_LEN, ESCROW_LEN,
    FUNDRAISER_LEN,
};
use custody_engine::{ProtocolError, PROGRAM_ID, TOKEN_PROGRAM_ID};

fn sample_fundraiser() -> Fundraiser {
    Fundraiser {
        maker: [7u8; 32],
        mint_to_raise: [9u8; 32],
        amount_to_raise: 1_000_000,
        current_amount: 42,
        time_started: 1_700_000_000,
        duration: 30,
        bump: 254,
    }
}

#[test]
fn fundraiser_layout_exact() {
    let bytes = encode_fundraiser(&sample_fundraiser());
    assert_eq!(bytes.len(), FUNDRAISER_LEN);
    assert_eq!(&bytes[0..32], &[7u8; 32]);
    assert_eq!(&bytes[32..64], &[9u8; 32]);
    assert_eq!(&bytes[64..72], &1_000_000u64.to_le_bytes());
    assert_eq!(&bytes[72..80], &42u64.to_le_bytes());
    assert_eq!(&bytes[80..88], &1_700_000_000i64.to_le_bytes());
    assert_eq!(&bytes[88..96], &30i64.to_le_bytes());
    assert_eq!(&bytes[96..104], &254u64.to_le_bytes());
}

#[test]
fn fundraiser_roundtrip() {
    let f = sample_fundraiser();
    let back = decode_fundraiser(&encode_fundraiser(&f)).unwrap();
    assert_eq!(back.maker, f.maker);
    assert_eq!(back.mint_to_raise, f.mint_to_raise);
    assert_eq!(back.amount_to_raise, f.amount_to_raise);
    assert_eq!(back.current_amount, f.current_amount);
    assert_eq!(back.time_started, f.time_started);
    assert_eq!(back.duration, f.duration);
    assert_eq!(back.bump, f.bump);
}

#[test]
fn negative_timestamp_roundtrip() {
    let f = Fundraiser { time_started: -12_345, duration: -1, ..sample_fundraiser() };
    let back = decode_fundraiser(&encode_fundraiser(&f)).unwrap();
    assert_eq!(back.time_started, -12_345);
    assert_eq!(back.duration, -1);
}

#[test]
fn escrow_roundtrip_and_layout() {
    let e = Escrow {
        maker: [1u8; 32],
        mint_a: [2u8; 32],
        mint_b: [3u8; 32],
        receive: 200,
        bump: 255,
    };
    let bytes = encode_escrow(&e);
    assert_eq!(bytes.len(), ESCROW_LEN);
    assert_eq!(&bytes[96..104], &200u64.to_le_bytes());
    assert_eq!(&bytes[104..112], &255u64.to_le_bytes());
    let back = decode_escrow(&bytes).unwrap();
    assert_eq!(back.maker, e.maker);
    assert_eq!(back.mint_a, e.mint_a);
    assert_eq!(back.mint_b, e.mint_b);
    assert_eq!(back.receive, 200);
    assert_eq!(back.bump, 255);
}

#[test]
fn contributor_roundtrip() {
    let c = Contributor { amount: 100_000, contributor_bump: 250 };
    let bytes = encode_contributor(&c);
    assert_eq!(bytes.len(), CONTRIBUTOR_LEN);
    let back = decode_contributor(&bytes).unwrap();
    assert_eq!(back.amount, 100_000);
    assert_eq!(back.contributor_bump, 250);
}

#[test]
fn wrong_size_buffers_rejected() {
    assert!(decode_fundraiser(&vec![0u8; 103]).is_none());
    assert!(decode_fundraiser(&vec![0u8; 105]).is_none());
    assert!(decode_escrow(&vec![0u8; 111]).is_none());
    assert!(decode_contributor(&vec![0u8; 15]).is_none());
    assert!(decode_contributor(&vec![]).is_none());
}

/// Address binding: the validator accepts exactly the claimed address that
/// equals the deterministic recomputation, and mutating any seed byte
/// changes the digest and is rejected.
#[test]
fn address_binding() {
    let maker = [7u8; 32];
    let pid = solana_pubkey::Pubkey::new_from_array(PROGRAM_ID);
    let (address, bump) =
        solana_pubkey::Pubkey::find_program_address(&[b"fundraiser", &maker], &pid);
    let address = address.to_bytes();

    let seeds = vec![b"fundraiser".to_vec(), maker.to_vec(), vec![bump]];
    assert!(validate_pda(&seeds, &PROGRAM_ID, &address).is_ok());

    for position in 0..seeds.len() {
        for byte in 0..seeds[position].len() {
            let mut mutated = seeds.clone();
            mutated[position][byte] ^= 1;
            let r = validate_pda(&mutated, &PROGRAM_ID, &address);
            assert_eq!(r, Err(ProtocolError::AuthorizationFailure));
        }
    }

    let mut wrong_claim = address;
    wrong_claim[0] ^= 1;
    assert_eq!(
        validate_pda(&seeds, &PROGRAM_ID, &wrong_claim),
        Err(ProtocolError::AuthorizationFailure)
    );
}

/// The identifiers baked into the crate equal their canonical decodings.
#[test]
fn program_identifiers_match() {
    assert_eq!(
        PROGRAM_ID,
        five8_const::decode_32_const("22222222222222222222222222222222222222222222")
    );
    assert_eq!(TOKEN_PROGRAM_ID, spl_token::ID.to_bytes());
}
