//! What the ledger platform provides: the well-known program and sysvar
//! ids, the derivation of program addresses, the accessor of the
//! instructions sysvar and the token program's account layout.
//!
//! Every function here hands plain bytes to the platform's own code and
//! takes plain bytes back. Their contracts are taken on trust.

use crate::codec::slices_equal;
use solana_program::program_pack::Pack;
use vstd::bytes::{spec_u16_from_le_bytes, spec_u64_from_le_bytes};
use vstd::prelude::*;

verus! {

/// The id of the signature-recovery program,
/// `KeccakSecp256k11111111111111111111111111111`.
pub open spec fn spec_secp256k1_program_id() -> Seq<u8> {
    seq![
        4u8, 198, 252, 32, 240, 80, 204, 240, 85, 132, 215, 33, 28, 159, 140, 245, 158, 193, 71,
        133, 187, 22, 106, 30, 40, 48, 232, 18, 32, 0, 0, 0,
    ]
}

/// The id of the system program, `11111111111111111111111111111111`.
pub open spec fn spec_system_program_id() -> Seq<u8> {
    Seq::new(32, |i: int| 0u8)
}

/// The id of the instructions sysvar,
/// `Sysvar1nstructions1111111111111111111111111`.
pub open spec fn spec_sysvar_instructions_id() -> Seq<u8> {
    seq![
        6u8, 167, 213, 23, 24, 123, 209, 102, 53, 218, 212, 4, 85, 253, 194, 192, 193, 36, 198,
        143, 33, 86, 117, 165, 219, 186, 203, 95, 8, 0, 0, 0,
    ]
}

/// The id of the clock sysvar, `SysvarC1ock11111111111111111111111111111111`.
pub open spec fn spec_sysvar_clock_id() -> Seq<u8> {
    seq![
        6u8, 167, 213, 23, 24, 199, 116, 201, 40, 86, 99, 152, 105, 29, 94, 182, 139, 94, 184,
        163, 155, 75, 109, 92, 115, 85, 91, 33, 0, 0, 0, 0,
    ]
}

/// The id of the rent sysvar, `SysvarRent111111111111111111111111111111111`.
pub open spec fn spec_sysvar_rent_id() -> Seq<u8> {
    seq![
        6u8, 167, 213, 23, 25, 44, 92, 81, 33, 140, 201, 76, 61, 74, 241, 127, 88, 218, 238, 8,
        155, 161, 253, 68, 227, 219, 217, 138, 0, 0, 0, 0,
    ]
}

/// The id of the token program,
/// `TokenkegQfeZyiNwAJbNbGKPFXCWuBvf9Ss623VQ5DA`.
pub open spec fn spec_token_program_id() -> Seq<u8> {
    seq![
        6u8, 221, 246, 225, 215, 101, 161, 147, 217, 203, 225, 70, 206, 235, 121, 172, 28, 180,
        133, 237, 95, 91, 55, 145, 58, 140, 245, 133, 126, 255, 0, 169,
    ]
}

/// Calls `solana_program::secp256k1_program::id`. Trusted: the id is the 32
/// bytes that its base58 text decodes to.
#[verifier::external_body]
pub(crate) fn secp256k1_program_id() -> (r: [u8; 32])
    ensures
        r@ == spec_secp256k1_program_id(),
{
    solana_program::secp256k1_program::id().to_bytes()
}

/// Calls `solana_program::system_program::id`. Trusted: the id is 32 zero
/// bytes.
#[verifier::external_body]
pub(crate) fn system_program_id() -> (r: [u8; 32])
    ensures
        r@ == spec_system_program_id(),
{
    solana_program::system_program::id().to_bytes()
}

/// Calls `solana_program::sysvar::instructions::id`. Trusted: the id is the
/// 32 bytes that its base58 text decodes to.
#[verifier::external_body]
pub(crate) fn sysvar_instructions_id() -> (r: [u8; 32])
    ensures
        r@ == spec_sysvar_instructions_id(),
{
    solana_program::sysvar::instructions::id().to_bytes()
}

/// Calls `solana_program::sysvar::clock::id`. Trusted: the id is the 32
/// bytes that its base58 text decodes to.
#[verifier::external_body]
pub(crate) fn sysvar_clock_id() -> (r: [u8; 32])
    ensures
        r@ == spec_sysvar_clock_id(),
{
    solana_program::sysvar::clock::id().to_bytes()
}

/// Calls `solana_program::sysvar::rent::id`. Trusted: the id is the 32 bytes
/// that its base58 text decodes to.
#[verifier::external_body]
pub(crate) fn sysvar_rent_id() -> (r: [u8; 32])
    ensures
        r@ == spec_sysvar_rent_id(),
{
    solana_program::sysvar::rent::id().to_bytes()
}

/// Calls `spl_token::id`. Trusted: the id is the 32 bytes that its base58
/// text decodes to.
#[verifier::external_body]
pub(crate) fn token_program_id() -> (r: [u8; 32])
    ensures
        r@ == spec_token_program_id(),
{
    spl_token::id().to_bytes()
}

/// The program address that the platform derives from `seeds` for
/// `program_id`, with its bump seed, or `None` where it derives none.
pub uninterp spec fn program_address(seeds: Seq<Seq<u8>>, program_id: Seq<u8>) -> Option<
    (Seq<u8>, u8),
>;

/// A derived address and its bump seed, by their bytes.
pub open spec fn derived_view(r: Option<([u8; 32], u8)>) -> Option<(Seq<u8>, u8)> {
    match r {
        Some((address, bump)) => Some((address@, bump)),
        None => None,
    }
}

/// Calls `Pubkey::try_find_program_address`. Trusted: the result depends on
/// the seeds and the program id alone.
#[verifier::external_body]
pub(crate) fn try_find_program_address(seeds: &Vec<Vec<u8>>, program_id: &[u8; 32]) -> (r: Option<
    ([u8; 32], u8),
>)
    ensures
        derived_view(r) == program_address(seeds.deep_view(), program_id@),
{
    let borrowed: Vec<&[u8]> = seeds.iter().map(|seed| seed.as_slice()).collect();
    let program = solana_program::pubkey::Pubkey::new_from_array(*program_id);
    let found = solana_program::pubkey::Pubkey::try_find_program_address(&borrowed, &program);
    found.map(|(address, bump)| (address.to_bytes(), bump))
}

/// An instruction as the instructions sysvar holds it: the program it
/// targets and its data.
#[derive(Clone, Debug)]
pub struct LoadedInstruction {
    /// The id of the program that the instruction targets.
    pub program_id: [u8; 32],
    /// The instruction's data.
    pub data: Vec<u8>,
}

/// The target program and the data of the instruction at `index` in the
/// data of an instructions sysvar, or `None` where the data holds none.
pub uninterp spec fn instruction_at(sysvar_data: Seq<u8>, index: int) -> Option<
    (Seq<u8>, Seq<u8>),
>;

/// A loaded instruction by its bytes.
pub open spec fn loaded_view(r: Option<LoadedInstruction>) -> Option<(Seq<u8>, Seq<u8>)> {
    match r {
        Some(instruction) => Some((instruction.program_id@, instruction.data@)),
        None => None,
    }
}

/// Calls `solana_program::sysvar::instructions::load_instruction_at`.
/// Trusted: the result depends on the index and the sysvar's data alone.
#[verifier::external_body]
pub(crate) fn load_instruction_at(index: usize, sysvar_data: &[u8]) -> (r: Option<
    LoadedInstruction,
>)
    ensures
        loaded_view(r) == instruction_at(sysvar_data@, index as int),
{
    #[allow(deprecated)]
    let loaded = solana_program::sysvar::instructions::load_instruction_at(index, sysvar_data);
    match loaded {
        Ok(instruction) => Some(
            LoadedInstruction {
                program_id: instruction.program_id.to_bytes(),
                data: instruction.data,
            },
        ),
        Err(_) => None,
    }
}

/// Calls `solana_program::sysvar::instructions::load_current_index`.
/// Trusted: the index is the little-endian `u16` in the last two bytes of
/// the sysvar's data.
#[verifier::external_body]
pub(crate) fn load_current_index(sysvar_data: &[u8]) -> (r: u16)
    requires
        sysvar_data@.len() >= 2,
    ensures
        r == spec_u16_from_le_bytes(
            sysvar_data@.subrange(sysvar_data@.len() - 2, sysvar_data@.len() as int),
        ),
{
    #[allow(deprecated)]
    let index = solana_program::sysvar::instructions::load_current_index(sysvar_data);
    index
}

/// What the library reads of a token account.
#[derive(Clone, Copy, Debug)]
pub struct TokenAccount {
    /// The mint of the tokens.
    pub mint: [u8; 32],
    /// The account's owner.
    pub owner: [u8; 32],
    /// The amount it holds.
    pub amount: u64,
}

/// Mint, owner and amount of the initialized token account that `data`
/// unpacks to, or `None` where it unpacks to none.
pub uninterp spec fn unpacked_token_account(data: Seq<u8>) -> Option<(Seq<u8>, Seq<u8>, u64)>;

/// A token account by its bytes.
pub open spec fn token_account_view(r: Option<TokenAccount>) -> Option<(Seq<u8>, Seq<u8>, u64)> {
    match r {
        Some(account) => Some((account.mint@, account.owner@, account.amount)),
        None => None,
    }
}

/// The length of a packed token account.
pub const TOKEN_ACCOUNT_LEN: usize = 165;

/// Calls `spl_token::state::Account::unpack`. Trusted: the result depends on
/// the data alone; an account unpacks only from 165 bytes, which start with
/// the mint, the owner and the little-endian amount.
#[verifier::external_body]
pub(crate) fn unpack_token_account(data: &[u8]) -> (r: Option<TokenAccount>)
    ensures
        token_account_view(r) == unpacked_token_account(data@),
        r matches Some(account) ==> data@.len() == TOKEN_ACCOUNT_LEN && account.mint@
            == data@.subrange(0, 32) && account.owner@ == data@.subrange(32, 64) && account.amount
            == spec_u64_from_le_bytes(data@.subrange(64, 72)),
{
    match spl_token::state::Account::unpack(data) {
        Ok(account) => Some(
            TokenAccount {
                mint: account.mint.to_bytes(),
                owner: account.owner.to_bytes(),
                amount: account.amount,
            },
        ),
        Err(_) => None,
    }
}

/// Whether `data` unpacks to an initialized mint.
pub uninterp spec fn unpacks_to_mint(data: Seq<u8>) -> bool;

/// Calls `spl_token::state::Mint::unpack`. Trusted: whether it succeeds
/// depends on the data alone.
#[verifier::external_body]
pub(crate) fn mint_unpacks(data: &[u8]) -> (r: bool)
    ensures
        r == unpacks_to_mint(data@),
{
    spl_token::state::Mint::unpack(data).is_ok()
}

/// The address that the platform derives from a base address, a seed text
/// and an owning program, or `None` where it derives none.
pub uninterp spec fn address_with_seed(base: Seq<u8>, seed: Seq<char>, owner: Seq<u8>) -> Option<
    Seq<u8>,
>;

/// A key by its bytes.
pub open spec fn key_view(r: Option<[u8; 32]>) -> Option<Seq<u8>> {
    match r {
        Some(key) => Some(key@),
        None => None,
    }
}

/// Calls `Pubkey::create_with_seed`. Trusted: the result depends on the
/// base, the seed and the owner alone.
#[verifier::external_body]
pub(crate) fn create_with_seed(base: &[u8; 32], seed: &String, owner: &[u8; 32]) -> (r: Option<
    [u8; 32],
>)
    ensures
        key_view(r) == address_with_seed(base@, seed@, owner@),
{
    let base_key = solana_program::pubkey::Pubkey::new_from_array(*base);
    let owner_key = solana_program::pubkey::Pubkey::new_from_array(*owner);
    let derived = solana_program::pubkey::Pubkey::create_with_seed(&base_key, seed, &owner_key);
    derived.ok().map(|key| key.to_bytes())
}

/// The base58 text of a byte string.
pub uninterp spec fn base58_text(bytes: Seq<u8>) -> Seq<char>;

/// Calls `bs58::encode` and collects the text with `into_string`. Trusted:
/// the text depends on the bytes alone.
#[verifier::external_body]
pub(crate) fn base58_encode(bytes: &[u8]) -> (r: String)
    ensures
        r@ == base58_text(bytes@),
{
    bs58::encode(bytes).into_string()
}

/// The value of one hexadecimal digit, in either case.
pub open spec fn hex_digit(c: u8) -> Option<u8> {
    if 0x30 <= c <= 0x39 {
        Some((c - 0x30) as u8)
    } else if 0x41 <= c <= 0x46 {
        Some((c - 0x41 + 10) as u8)
    } else if 0x61 <= c <= 0x66 {
        Some((c - 0x61 + 10) as u8)
    } else {
        None
    }
}

/// Whether a text is hexadecimal: an even number of digits.
pub open spec fn is_hex_text(text: Seq<u8>) -> bool {
    &&& text.len() % 2 == 0
    &&& forall|i: int| 0 <= i < text.len() ==> hex_digit(#[trigger] text[i]) is Some
}

/// The bytes that a hexadecimal text stands for, two digits each, the high
/// one first; `None` where the text is not hexadecimal.
pub open spec fn hex_decoded(text: Seq<u8>) -> Option<Seq<u8>> {
    if is_hex_text(text) {
        Some(
            Seq::new(
                text.len() / 2,
                |i: int|
                    (hex_digit(text[2 * i]).unwrap() * 16 + hex_digit(
                        text[2 * i + 1],
                    ).unwrap()) as u8,
            ),
        )
    } else {
        None
    }
}

/// A byte string by its bytes.
pub open spec fn bytes_view(r: Option<Vec<u8>>) -> Option<Seq<u8>> {
    match r {
        Some(bytes) => Some(bytes@),
        None => None,
    }
}

/// Calls `hex::decode`. Trusted: it decodes exactly the texts of an even
/// number of hexadecimal digits, two digits to a byte.
#[verifier::external_body]
pub(crate) fn hex_decode(text: &[u8]) -> (r: Option<Vec<u8>>)
    ensures
        bytes_view(r) == hex_decoded(text@),
{
    hex::decode(text).ok()
}

/// The data of the recovery instruction that signs `message` with the key
/// that `secret_key` parses to, or `None` where it parses to none.
pub uninterp spec fn signed_recovery_data(secret_key: Seq<u8>, message: Seq<u8>) -> Option<
    Seq<u8>,
>;

/// Parses the key with `libsecp256k1::SecretKey::parse` and calls
/// `solana_sdk::secp256k1_instruction::new_secp256k1_instruction`. Trusted:
/// the instruction's data depends on the key and the message alone.
#[verifier::external_body]
pub(crate) fn new_secp256k1_instruction_data(secret_key: &[u8; 32], message: &[u8]) -> (r: Option<
    Vec<u8>,
>)
    ensures
        bytes_view(r) == signed_recovery_data(secret_key@, message@),
{
    match libsecp256k1::SecretKey::parse(secret_key) {
        Ok(key) => Some(
            solana_sdk::secp256k1_instruction::new_secp256k1_instruction(&key, message).data,
        ),
        Err(_) => None,
    }
}

/// Whether `key` is the id of the signature-recovery program.
pub fn is_secp256k1_program(key: &[u8; 32]) -> (r: bool)
    ensures
        r == (key@ == spec_secp256k1_program_id()),
{
    let id = secp256k1_program_id();
    slices_equal(key.as_slice(), id.as_slice())
}

} // verus!
