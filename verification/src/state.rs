use vstd::prelude::*;
use vstd::bytes::{lemma_auto_spec_u64_to_from_le_bytes, spec_u64_from_le_bytes, spec_u64_to_le_bytes};
use crate::codec::{
    lemma_i64_bits_roundtrip, lemma_i64_of_bits_roundtrip, push_i64_le, push_key, push_u64_le,
    read_i64_le, read_key, read_u64_le, spec_i64_from_le_bytes, spec_i64_to_le_bytes,
};
use crate::keys::Pubkey;

verus! {

/// Byte size of an escrow record.
pub const ESCROW_LEN: usize = 112;

/// Byte size of a fundraiser record.
pub const FUNDRAISER_LEN: usize = 104;

/// Byte size of a contributor record.
pub const CONTRIBUTOR_LEN: usize = 16;

/// The state record of one open escrow trade. It exists exactly while the
/// trade is pending and is destroyed, atomically with the settling transfer,
/// by the terminal instruction.
#[derive(Clone, Copy)]
pub struct Escrow {
    /// The party that opened the trade.
    pub maker: Pubkey,
    /// The asset type the maker deposited.
    pub mint_a: Pubkey,
    /// The asset type the maker wants in return.
    pub mint_b: Pubkey,
    /// How much of `mint_b` the maker wants in return.
    pub receive: u64,
    /// The derivation nonce of the record's own address.
    pub bump: u64,
}

/// The state record of one fundraising pool.
#[derive(Clone, Copy)]
pub struct Fundraiser {
    /// The party that started the fundraiser.
    pub maker: Pubkey,
    /// The asset type being raised.
    pub mint_to_raise: Pubkey,
    /// The funding goal.
    pub amount_to_raise: u64,
    /// The total contributed so far; never exceeds the goal.
    pub current_amount: u64,
    /// Timestamp at which the fundraiser started.
    pub time_started: i64,
    /// How long contributions are collected.
    pub duration: i64,
    /// The derivation nonce of the record's own address.
    pub bump: u64,
}

/// The per-(fundraiser, contributor) record of one contributor's cumulative
/// deposit.
#[derive(Clone, Copy)]
pub struct Contributor {
    /// Cumulative amount this contributor has deposited.
    pub amount: u64,
    /// The derivation nonce of the record's own address.
    pub contributor_bump: u64,
}

/// The unique 112-byte encoding of an escrow record: the three addresses,
/// then the two 64-bit fields, all little-endian.
pub open spec fn spec_encode_escrow(e: Escrow) -> Seq<u8> {
    e.maker@ + e.mint_a@ + e.mint_b@ + spec_u64_to_le_bytes(e.receive)
        + spec_u64_to_le_bytes(e.bump)
}

/// The unique 104-byte encoding of a fundraiser record.
pub open spec fn spec_encode_fundraiser(f: Fundraiser) -> Seq<u8> {
    f.maker@ + f.mint_to_raise@ + spec_u64_to_le_bytes(f.amount_to_raise)
        + spec_u64_to_le_bytes(f.current_amount) + spec_i64_to_le_bytes(f.time_started)
        + spec_i64_to_le_bytes(f.duration) + spec_u64_to_le_bytes(f.bump)
}

/// The unique 16-byte encoding of a contributor record.
pub open spec fn spec_encode_contributor(c: Contributor) -> Seq<u8> {
    spec_u64_to_le_bytes(c.amount) + spec_u64_to_le_bytes(c.contributor_bump)
}

/// Serializes an escrow record. The whole buffer is produced in one piece;
/// records are always written back whole, never field by field in place.
pub fn encode_escrow(e: &Escrow) -> (r: Vec<u8>)
    ensures
        r@ == spec_encode_escrow(*e),
        r@.len() == ESCROW_LEN,
{
    proof {
        lemma_auto_spec_u64_to_from_le_bytes();
    }
    let mut out: Vec<u8> = Vec::new();
    push_key(&mut out, &e.maker);
    push_key(&mut out, &e.mint_a);
    push_key(&mut out, &e.mint_b);
    push_u64_le(&mut out, e.receive);
    push_u64_le(&mut out, e.bump);
    out
}

/// Serializes a fundraiser record.
pub fn encode_fundraiser(f: &Fundraiser) -> (r: Vec<u8>)
    ensures
        r@ == spec_encode_fundraiser(*f),
        r@.len() == FUNDRAISER_LEN,
{
    proof {
        lemma_auto_spec_u64_to_from_le_bytes();
    }
    let mut out: Vec<u8> = Vec::new();
    push_key(&mut out, &f.maker);
    push_key(&mut out, &f.mint_to_raise);
    push_u64_le(&mut out, f.amount_to_raise);
    push_u64_le(&mut out, f.current_amount);
    push_i64_le(&mut out, f.time_started);
    push_i64_le(&mut out, f.duration);
    push_u64_le(&mut out, f.bump);
    out
}

/// Serializes a contributor record.
pub fn encode_contributor(c: &Contributor) -> (r: Vec<u8>)
    ensures
        r@ == spec_encode_contributor(*c),
        r@.len() == CONTRIBUTOR_LEN,
{
    proof {
        lemma_auto_spec_u64_to_from_le_bytes();
    }
    let mut out: Vec<u8> = Vec::new();
    push_u64_le(&mut out, c.amount);
    push_u64_le(&mut out, c.contributor_bump);
    out
}

/// Interprets a buffer as an escrow record. Succeeds exactly when the buffer
/// has the record's exact size, and then returns the unique record that the
/// buffer encodes.
pub fn decode_escrow(data: &Vec<u8>) -> (r: Option<Escrow>)
    ensures
        r is Some <==> data@.len() == ESCROW_LEN,
        r matches Some(e) ==> data@ == spec_encode_escrow(e),
{
    if data.len() != ESCROW_LEN {
        return None;
    }
    let e = Escrow {
        maker: read_key(data, 0),
        mint_a: read_key(data, 32),
        mint_b: read_key(data, 64),
        receive: read_u64_le(data, 96),
        bump: read_u64_le(data, 104),
    };
    proof {
        lemma_auto_spec_u64_to_from_le_bytes();
        assert(data@ =~= spec_encode_escrow(e));
    }
    Some(e)
}

/// Interprets a buffer as a fundraiser record.
pub fn decode_fundraiser(data: &Vec<u8>) -> (r: Option<Fundraiser>)
    ensures
        r is Some <==> data@.len() == FUNDRAISER_LEN,
        r matches Some(f) ==> data@ == spec_encode_fundraiser(f),
{
    if data.len() != FUNDRAISER_LEN {
        return None;
    }
    let f = Fundraiser {
        maker: read_key(data, 0),
        mint_to_raise: read_key(data, 32),
        amount_to_raise: read_u64_le(data, 64),
        current_amount: read_u64_le(data, 72),
        time_started: read_i64_le(data, 80),
        duration: read_i64_le(data, 88),
        bump: read_u64_le(data, 96),
    };
    proof {
        lemma_auto_spec_u64_to_from_le_bytes();
        lemma_i64_of_bits_roundtrip(spec_u64_from_le_bytes(data@.subrange(80, 88)));
        lemma_i64_of_bits_roundtrip(spec_u64_from_le_bytes(data@.subrange(88, 96)));
        assert(data@ =~= spec_encode_fundraiser(f));
    }
    Some(f)
}

/// Interprets a buffer as a contributor record.
pub fn decode_contributor(data: &Vec<u8>) -> (r: Option<Contributor>)
    ensures
        r is Some <==> data@.len() == CONTRIBUTOR_LEN,
        r matches Some(c) ==> data@ == spec_encode_contributor(c),
{
    if data.len() != CONTRIBUTOR_LEN {
        return None;
    }
    let c = Contributor { amount: read_u64_le(data, 0), contributor_bump: read_u64_le(data, 8) };
    proof {
        lemma_auto_spec_u64_to_from_le_bytes();
        assert(data@ =~= spec_encode_contributor(c));
    }
    Some(c)
}

/// The fields of an escrow record, read off its raw buffer.
pub open spec fn spec_escrow_maker(s: Seq<u8>) -> Seq<u8> {
    s.subrange(0, 32)
}

pub open spec fn spec_escrow_mint_a(s: Seq<u8>) -> Seq<u8> {
    s.subrange(32, 64)
}

pub open spec fn spec_escrow_mint_b(s: Seq<u8>) -> Seq<u8> {
    s.subrange(64, 96)
}

pub open spec fn spec_escrow_receive(s: Seq<u8>) -> u64 {
    spec_u64_from_le_bytes(s.subrange(96, 104))
}

pub open spec fn spec_escrow_bump(s: Seq<u8>) -> u64 {
    spec_u64_from_le_bytes(s.subrange(104, 112))
}

/// The fields of a fundraiser record, read off its raw buffer.
pub open spec fn spec_fundraiser_maker(s: Seq<u8>) -> Seq<u8> {
    s.subrange(0, 32)
}

pub open spec fn spec_fundraiser_mint(s: Seq<u8>) -> Seq<u8> {
    s.subrange(32, 64)
}

pub open spec fn spec_fundraiser_amount_to_raise(s: Seq<u8>) -> u64 {
    spec_u64_from_le_bytes(s.subrange(64, 72))
}

pub open spec fn spec_fundraiser_current(s: Seq<u8>) -> u64 {
    spec_u64_from_le_bytes(s.subrange(72, 80))
}

pub open spec fn spec_fundraiser_time_started(s: Seq<u8>) -> i64 {
    spec_i64_from_le_bytes(s.subrange(80, 88))
}

pub open spec fn spec_fundraiser_duration(s: Seq<u8>) -> i64 {
    spec_i64_from_le_bytes(s.subrange(88, 96))
}

pub open spec fn spec_fundraiser_bump(s: Seq<u8>) -> u64 {
    spec_u64_from_le_bytes(s.subrange(96, 104))
}

/// The fields of a contributor record, read off its raw buffer.
pub open spec fn spec_contributor_amount(s: Seq<u8>) -> u64 {
    spec_u64_from_le_bytes(s.subrange(0, 8))
}

pub open spec fn spec_contributor_bump(s: Seq<u8>) -> u64 {
    spec_u64_from_le_bytes(s.subrange(8, 16))
}

/// On an escrow record's own encoding, the raw-buffer readers return the
/// record's fields.
pub proof fn lemma_escrow_fields(e: Escrow, s: Seq<u8>)
    requires
        s == spec_encode_escrow(e),
    ensures
        spec_escrow_maker(s) == e.maker@,
        spec_escrow_mint_a(s) == e.mint_a@,
        spec_escrow_mint_b(s) == e.mint_b@,
        spec_escrow_receive(s) == e.receive,
        spec_escrow_bump(s) == e.bump,
{
    lemma_auto_spec_u64_to_from_le_bytes();
    assert(spec_escrow_maker(s) =~= e.maker@);
    assert(spec_escrow_mint_a(s) =~= e.mint_a@);
    assert(spec_escrow_mint_b(s) =~= e.mint_b@);
    assert(s.subrange(96, 104) =~= spec_u64_to_le_bytes(e.receive));
    assert(s.subrange(104, 112) =~= spec_u64_to_le_bytes(e.bump));
}

/// On a fundraiser record's own encoding, the raw-buffer readers return the
/// record's fields.
pub proof fn lemma_fundraiser_fields(f: Fundraiser, s: Seq<u8>)
    requires
        s == spec_encode_fundraiser(f),
    ensures
        spec_fundraiser_maker(s) == f.maker@,
        spec_fundraiser_mint(s) == f.mint_to_raise@,
        spec_fundraiser_amount_to_raise(s) == f.amount_to_raise,
        spec_fundraiser_current(s) == f.current_amount,
        spec_fundraiser_time_started(s) == f.time_started,
        spec_fundraiser_duration(s) == f.duration,
        spec_fundraiser_bump(s) == f.bump,
{
    lemma_auto_spec_u64_to_from_le_bytes();
    lemma_i64_bits_roundtrip(f.time_started);
    lemma_i64_bits_roundtrip(f.duration);
    assert(spec_fundraiser_maker(s) =~= f.maker@);
    assert(spec_fundraiser_mint(s) =~= f.mint_to_raise@);
    assert(s.subrange(64, 72) =~= spec_u64_to_le_bytes(f.amount_to_raise));
    assert(s.subrange(72, 80) =~= spec_u64_to_le_bytes(f.current_amount));
    assert(s.subrange(80, 88) =~= spec_i64_to_le_bytes(f.time_started));
    assert(s.subrange(88, 96) =~= spec_i64_to_le_bytes(f.duration));
    assert(s.subrange(96, 104) =~= spec_u64_to_le_bytes(f.bump));
}

/// On a contributor record's own encoding, the raw-buffer readers return the
/// record's fields.
pub proof fn lemma_contributor_fields(c: Contributor, s: Seq<u8>)
    requires
        s == spec_encode_contributor(c),
    ensures
        spec_contributor_amount(s) == c.amount,
        spec_contributor_bump(s) == c.contributor_bump,
{
    lemma_auto_spec_u64_to_from_le_bytes();
    assert(s.subrange(0, 8) =~= spec_u64_to_le_bytes(c.amount));
    assert(s.subrange(8, 16) =~= spec_u64_to_le_bytes(c.contributor_bump));
}

} // verus!
