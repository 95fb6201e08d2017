use vstd::prelude::*;
use vstd::utf8::{encode_utf8, encode_utf8_decode_utf8};
use crate::address::Address;

verus! {

/// The longest label, in UTF-8 bytes, that names a vesting record.
pub const MAX_LABEL_LEN: usize = 32;

/// The ASCII bytes of "vesting-record", the salt of record addresses.
pub open spec fn record_salt() -> Seq<u8> {
    seq![0x76u8, 0x65, 0x73, 0x74, 0x69, 0x6e, 0x67, 0x2d, 0x72, 0x65, 0x63, 0x6f, 0x72, 0x64]
}

/// The ASCII bytes of "vesting-treasury", the salt of treasury addresses.
pub open spec fn treasury_salt() -> Seq<u8> {
    seq![
        0x76u8, 0x65, 0x73, 0x74, 0x69, 0x6e, 0x67, 0x2d, 0x74, 0x72, 0x65, 0x61, 0x73, 0x75,
        0x72, 0x79,
    ]
}

/// The bytes of a label as they enter a derivation: its UTF-8 encoding.
pub open spec fn label_bytes(label: Seq<char>) -> Seq<u8> {
    encode_utf8(label)
}

/// Seeds of the vesting record of `label`.
pub open spec fn record_seeds(label: Seq<char>) -> Seq<Seq<u8>> {
    seq![record_salt(), label_bytes(label)]
}

/// Seeds of the treasury of `label`.
pub open spec fn treasury_seeds(label: Seq<char>) -> Seq<Seq<u8>> {
    seq![treasury_salt(), label_bytes(label)]
}

/// The program-derived address and bump found for `seeds` under the program
/// `program_id`, or `None` where the search finds no bump.
pub uninterp spec fn program_address_of(program_id: Seq<u8>, seeds: Seq<Seq<u8>>) -> Option<([u8; 32], u8)>;

/// A derivation result as an address and its bump.
pub open spec fn derived(program_id: Address, seeds: Seq<Seq<u8>>) -> Option<(Address, u8)> {
    match program_address_of(program_id.bytes@, seeds) {
        Some((bytes, bump)) => Some((Address { bytes }, bump)),
        None => None,
    }
}

/// Where the vesting record of `label` lives, with its bump.
pub open spec fn record_derivation(program_id: Address, label: Seq<char>) -> Option<(Address, u8)> {
    derived(program_id, record_seeds(label))
}

/// Where the treasury of `label` lives, with its bump.
pub open spec fn treasury_derivation(program_id: Address, label: Seq<char>) -> Option<(Address, u8)> {
    derived(program_id, treasury_seeds(label))
}

/// Relies on `Pubkey::try_find_program_address` of anchor_lang: it searches the
/// bumps from 255 down for a hash of the seeds, the bump and the program id that
/// lies off the ed25519 curve, and its result depends on the seeds and the
/// program id alone.
#[verifier::external_body]
fn find_program_address(seeds: &Vec<Vec<u8>>, program_id: &Address) -> (r: Option<([u8; 32], u8)>)
    ensures
        r == program_address_of(program_id.bytes@, seeds.deep_view()),
{
    let slices: Vec<&[u8]> = seeds.iter().map(|s| s.as_slice()).collect();
    let program = anchor_lang::prelude::Pubkey::new_from_array(program_id.bytes);
    anchor_lang::prelude::Pubkey::try_find_program_address(&slices, &program)
        .map(|(key, bump)| (key.to_bytes(), bump))
}

fn record_salt_bytes() -> (r: Vec<u8>)
    ensures
        r@ == record_salt(),
{
    let r: Vec<u8> = vec![0x76u8, 0x65, 0x73, 0x74, 0x69, 0x6e, 0x67, 0x2d, 0x72, 0x65, 0x63, 0x6f, 0x72, 0x64];
    assert(r@ =~= record_salt());
    r
}

fn treasury_salt_bytes() -> (r: Vec<u8>)
    ensures
        r@ == treasury_salt(),
{
    let r: Vec<u8> = vec![
        0x76u8, 0x65, 0x73, 0x74, 0x69, 0x6e, 0x67, 0x2d, 0x74, 0x72, 0x65, 0x61, 0x73, 0x75,
        0x72, 0x79,
    ];
    assert(r@ =~= treasury_salt());
    r
}

fn derive_with_salt(salt: Vec<u8>, program_id: &Address, label: &str) -> (r: Option<(Address, u8)>)
    ensures
        r == derived(*program_id, seq![salt@, label_bytes(label@)]),
{
    let name: Vec<u8> = vstd::slice::slice_to_vec(label.as_bytes());
    let seeds: Vec<Vec<u8>> = vec![salt, name];
    assert(seeds@[0].deep_view() =~= seeds@[0]@);
    assert(seeds@[1].deep_view() =~= seeds@[1]@);
    assert(seeds.deep_view() =~= seq![salt@, label_bytes(label@)]);
    match find_program_address(&seeds, program_id) {
        Some((bytes, bump)) => Some((Address::new(bytes), bump)),
        None => None,
    }
}

/// Derives the address and bump of the vesting record of `label`.
pub fn record_address(program_id: &Address, label: &str) -> (r: Option<(Address, u8)>)
    ensures
        r == record_derivation(*program_id, label@),
{
    derive_with_salt(record_salt_bytes(), program_id, label)
}

/// Derives the address and bump of the treasury of `label`.
pub fn treasury_address(program_id: &Address, label: &str) -> (r: Option<(Address, u8)>)
    ensures
        r == treasury_derivation(*program_id, label@),
{
    derive_with_salt(treasury_salt_bytes(), program_id, label)
}

/// Derivation is a function of the program and the label: the same label
/// always leads to the same record and treasury addresses and bumps.
pub proof fn lemma_derivation_deterministic(program_id: Address, a: Seq<char>, b: Seq<char>)
    requires
        a == b,
    ensures
        record_derivation(program_id, a) == record_derivation(program_id, b),
        treasury_derivation(program_id, a) == treasury_derivation(program_id, b),
{
}

/// The seeds handed to the address search never repeat: distinct labels give
/// distinct record seeds and distinct treasury seeds, and record seeds never
/// equal treasury seeds. Distinct addresses then rest on the hash alone.
pub proof fn lemma_seeds_distinct(a: Seq<char>, b: Seq<char>)
    ensures
        a != b ==> record_seeds(a) != record_seeds(b),
        a != b ==> treasury_seeds(a) != treasury_seeds(b),
        record_seeds(a) != treasury_seeds(b),
{
    if a != b {
        encode_utf8_decode_utf8(a);
        encode_utf8_decode_utf8(b);
        assert(record_seeds(a)[1] != record_seeds(b)[1]);
        assert(treasury_seeds(a)[1] != treasury_seeds(b)[1]);
    }
    assert(record_seeds(a)[0][8] != treasury_seeds(b)[0][8]);
}

} // verus!
