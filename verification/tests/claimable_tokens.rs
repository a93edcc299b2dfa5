use secp_attestation::account::Account;
use secp_attestation::claimable_tokens::instruction::{
    ClaimableProgramInstruction, CreateTokenAccount,
};
use secp_attestation::claimable_tokens::processor::{Outcome, Processor, RentExemption};
use secp_attestation::claimable_tokens::state::{NonceAccount, TransferInstructionData};
use secp_attestation::claimable_tokens::utils::{find_address_pair, find_nonce_address};
use secp_attestation::error::ProgramError;
use secp_attestation::secp::SecpSignatureOffsets;
use solana_program::program_option::COption;
use solana_program::program_pack::Pack;
use solana_program::pubkey::Pubkey;
use solana_program::sysvar::instructions::{
    construct_instructions_data, store_current_index, BorrowedInstruction,
};

const PROGRAM: [u8; 32] = [42; 32];
const MINT: [u8; 32] = [7; 32];
const DESTINATION: [u8; 32] = [8; 32];
const SIGNER: [u8; 20] = [9; 20];
const RENT: RentExemption = RentExemption { token_account: 2_039_280, nonce_account: 953_520 };

fn plain(key: [u8; 32], lamports: u64, data: Vec<u8>) -> Account {
    Account { key, owner: PROGRAM, lamports, data, is_signer: false, is_writable: true }
}

/// The data of a recovery instruction that attests `message` for `address`.
fn recovery(address: &[u8; 20], index: u8, message: &[u8]) -> Vec<u8> {
    let offsets = SecpSignatureOffsets {
        signature_offset: 32,
        signature_instruction_index: index,
        eth_address_offset: 12,
        eth_address_instruction_index: index,
        message_data_offset: 97,
        message_data_size: message.len() as u16,
        message_instruction_index: index,
    };
    let mut data = vec![1u8];
    data.extend_from_slice(&offsets.try_to_vec());
    data.extend_from_slice(address);
    data.extend_from_slice(&[5u8; 64]);
    data.push(1);
    data.extend_from_slice(message);
    data
}

/// The instructions sysvar of a transaction, seen from the instruction at
/// `current`.
fn sysvar(instructions: &[([u8; 32], Vec<u8>)], current: u16) -> Account {
    let keys: Vec<Pubkey> = instructions.iter().map(|i| Pubkey::new_from_array(i.0)).collect();
    let borrowed: Vec<BorrowedInstruction> = instructions
        .iter()
        .zip(keys.iter())
        .map(|(i, key)| BorrowedInstruction { program_id: key, accounts: Vec::new(), data: &i.1 })
        .collect();
    let mut data = construct_instructions_data(&borrowed);
    store_current_index(&mut data, current);
    plain(solana_program::sysvar::instructions::id().to_bytes(), 1, data)
}

fn secp_id() -> [u8; 32] {
    solana_program::secp256k1_program::id().to_bytes()
}

fn token_account_data(mint: [u8; 32], amount: u64) -> Vec<u8> {
    let account = spl_token::state::Account {
        mint: Pubkey::new_from_array(mint),
        owner: Pubkey::new_from_array([3; 32]),
        amount,
        delegate: COption::None,
        state: spl_token::state::AccountState::Initialized,
        is_native: COption::None,
        delegated_amount: 0,
        close_authority: COption::None,
    };
    let mut data = vec![0u8; spl_token::state::Account::LEN];
    spl_token::state::Account::pack(account, &mut data).unwrap();
    data
}

fn payload(target: [u8; 32], amount: u64, nonce: u64) -> Vec<u8> {
    TransferInstructionData { target_pubkey: target, amount, nonce }.try_to_vec()
}

/// The accounts of one claim: the token account of `SIGNER` with 500
/// tokens, the signer's counter account and the mint's authority.
struct Claim {
    bank: Account,
    nonce: Account,
    authority: Account,
    destination: Account,
}

fn claim() -> Claim {
    let pair = find_address_pair(&PROGRAM, &MINT, SIGNER).unwrap();
    let seed = [b"N_".as_ref(), &SIGNER[..]].concat();
    let (base, derived, _) = find_nonce_address(&PROGRAM, &MINT, &seed).unwrap();
    assert_eq!(base, pair.base.address);
    Claim {
        bank: plain(pair.derive.address, 1, token_account_data(MINT, 500)),
        nonce: plain(derived, 0, Vec::new()),
        authority: plain(base, 1, Vec::new()),
        destination: plain(DESTINATION, 1, Vec::new()),
    }
}

const FUNDER: [u8; 32] = [30; 32];

fn check(c: &Claim, instruction_info: &Account) -> Result<(u64, NonceAccount, bool), ProgramError> {
    let funder = plain(FUNDER, 10_000_000, Vec::new());
    let signed = Processor::check_ethereum_sign(
        &PROGRAM,
        &funder,
        instruction_info,
        &c.bank,
        &c.nonce,
        &c.authority,
        &SIGNER,
        &DESTINATION,
        RENT.nonce_account,
    )?;
    match signed.create_nonce_account {
        Some(create) => {
            assert_eq!(create.from, FUNDER);
            assert_eq!(create.to, c.nonce.key);
            assert_eq!(create.lamports, RENT.nonce_account);
            assert_eq!(create.space, 9);
            assert_eq!(create.owner, PROGRAM);
            assert_eq!(c.nonce.lamports, 0);
        }
        None => assert_ne!(c.nonce.lamports, 0),
    }
    Ok((signed.amount, signed.nonce_record, signed.create_nonce_account.is_some()))
}

#[test]
fn replay_is_rejected() {
    let mut c = claim();
    let info = sysvar(
        &[(secp_id(), recovery(&SIGNER, 0, &payload(DESTINATION, 120, 0))), (PROGRAM, vec![1])],
        1,
    );
    // The first verification creates the counter and advances it.
    let (amount, record, created) = check(&c, &info).unwrap();
    assert_eq!(amount, 120);
    assert!(created);
    assert_eq!(record, NonceAccount { version: 1, nonce: 1 });
    c.nonce.lamports = RENT.nonce_account;
    c.nonce.data = record.pack();
    assert_eq!(c.nonce.data, vec![1, 1, 0, 0, 0, 0, 0, 0, 0]);
    assert_eq!(c.nonce.data.len(), NonceAccount::LEN);

    // The identical message again.
    assert_eq!(check(&c, &info), Err(ProgramError::NonceVerificationError));

    // The next nonce is accepted, a skipped one is not.
    let skipped = sysvar(
        &[(secp_id(), recovery(&SIGNER, 0, &payload(DESTINATION, 120, 2))), (PROGRAM, vec![1])],
        1,
    );
    assert_eq!(check(&c, &skipped), Err(ProgramError::NonceVerificationError));
    let next = sysvar(
        &[(secp_id(), recovery(&SIGNER, 0, &payload(DESTINATION, 30, 1))), (PROGRAM, vec![1])],
        1,
    );
    let (amount, record, created) = check(&c, &next).unwrap();
    assert_eq!(amount, 30);
    assert!(!created);
    assert_eq!(record.nonce, 2);
}

#[test]
fn counter_at_its_end_accepts_nothing() {
    let counter = NonceAccount { version: 1, nonce: u64::MAX };
    assert_eq!(counter.advance(u64::MAX), Err(ProgramError::NonceVerificationError));
    let counter = NonceAccount { version: 1, nonce: 41 };
    assert_eq!(counter.advance(41), Ok(NonceAccount { version: 1, nonce: 42 }));
    assert_eq!(counter.advance(40), Err(ProgramError::NonceVerificationError));
    assert_eq!(counter.advance(42), Err(ProgramError::NonceVerificationError));
    assert_eq!(NonceAccount::new(), NonceAccount { version: 1, nonce: 0 });
    assert!(NonceAccount::new().is_initialized());
}

#[test]
fn counter_records_are_checked() {
    assert_eq!(NonceAccount::load(0, &[]), Ok(NonceAccount { version: 1, nonce: 0 }));
    assert_eq!(
        NonceAccount::load(5, &[1, 2, 1, 0, 0, 0, 0, 0, 0]),
        Ok(NonceAccount { version: 1, nonce: 258 })
    );
    assert_eq!(NonceAccount::load(5, &[0; 9]), Err(ProgramError::DecodeError));
    assert_eq!(NonceAccount::load(5, &[1; 8]), Err(ProgramError::DecodeError));
    assert_eq!(NonceAccount::unpack(&[1; 10]), Err(ProgramError::DecodeError));
}

#[test]
fn transfer_must_follow_its_recovery_instruction() {
    let c = claim();
    let first = sysvar(
        &[(PROGRAM, vec![1]), (secp_id(), recovery(&SIGNER, 1, &payload(DESTINATION, 120, 0)))],
        0,
    );
    assert_eq!(check(&c, &first), Err(ProgramError::OrderingError));

    let stranger = sysvar(
        &[([77; 32], recovery(&SIGNER, 0, &payload(DESTINATION, 120, 0))), (PROGRAM, vec![1])],
        1,
    );
    assert_eq!(check(&c, &stranger), Err(ProgramError::BindingError));

    let mut false_sysvar = sysvar(
        &[(secp_id(), recovery(&SIGNER, 0, &payload(DESTINATION, 120, 0))), (PROGRAM, vec![1])],
        1,
    );
    false_sysvar.key = [66; 32];
    assert_eq!(check(&c, &false_sysvar), Err(ProgramError::BindingError));
}

#[test]
fn spoofed_index_is_rejected() {
    let c = claim();
    // Two recovery instructions; the second one's record points at the
    // first.
    let info = sysvar(
        &[
            (secp_id(), recovery(&[1; 20], 0, &payload(DESTINATION, 120, 0))),
            (secp_id(), recovery(&SIGNER, 0, &payload(DESTINATION, 120, 0))),
            (PROGRAM, vec![1]),
        ],
        2,
    );
    assert_eq!(check(&c, &info), Err(ProgramError::SignatureVerificationFailed));
    // With a record that names its own place it passes.
    let honest = sysvar(
        &[
            (secp_id(), recovery(&[1; 20], 0, &payload(DESTINATION, 120, 0))),
            (secp_id(), recovery(&SIGNER, 1, &payload(DESTINATION, 120, 0))),
            (PROGRAM, vec![1]),
        ],
        2,
    );
    assert_eq!(check(&c, &honest).map(|r| r.0), Ok(120));
}

#[test]
fn layout_is_held_to_its_constants() {
    let message = payload(DESTINATION, 120, 0);
    let good = recovery(&SIGNER, 3, &message);
    let signed = Processor::validate_eth_signature(&SIGNER, &DESTINATION, good.clone(), 3).unwrap();
    assert_eq!(signed.target_pubkey, DESTINATION);
    assert_eq!(signed.amount, 120);
    assert_eq!(signed.nonce, 0);

    let refused = |data: Vec<u8>, index: u8| {
        assert_eq!(
            Processor::validate_eth_signature(&SIGNER, &DESTINATION, data, index).err(),
            Some(ProgramError::SignatureVerificationFailed)
        );
    };
    refused(good.clone(), 2);
    refused(Vec::new(), 0);
    refused(good[..96].to_vec(), 3);
    // Two signatures.
    let mut data = good.clone();
    data[0] = 2;
    refused(data, 3);
    // Each index field on its own.
    for at in [3usize, 6, 11] {
        let mut data = good.clone();
        data[at] = 0;
        refused(data, 3);
    }
    // Each offset on its own: signature, address, message.
    for at in [1usize, 4, 7] {
        let mut data = good.clone();
        data[at] += 1;
        refused(data, 3);
    }
    // A message longer or shorter than the record says.
    let mut data = good.clone();
    data.push(0);
    refused(data, 3);
    let mut data = good.clone();
    data[9] -= 1;
    refused(data, 3);
    // Another signer, another destination, a message that is no payload.
    assert_eq!(
        Processor::validate_eth_signature(&[1; 20], &DESTINATION, good.clone(), 3).err(),
        Some(ProgramError::SignatureVerificationFailed)
    );
    assert_eq!(
        Processor::validate_eth_signature(&SIGNER, &[1; 32], good.clone(), 3).err(),
        Some(ProgramError::SignatureVerificationFailed)
    );
    refused(recovery(&SIGNER, 3, &message[..47]), 3);
}

#[test]
fn counter_account_must_be_the_derived_one() {
    let info = sysvar(
        &[(secp_id(), recovery(&SIGNER, 0, &payload(DESTINATION, 120, 0))), (PROGRAM, vec![1])],
        1,
    );
    let mut c = claim();
    c.nonce.key = [1; 32];
    assert_eq!(check(&c, &info), Err(ProgramError::BindingError));
    let mut c = claim();
    c.authority.key = [1; 32];
    assert_eq!(check(&c, &info), Err(ProgramError::BindingError));
    let mut c = claim();
    c.bank.data = vec![0; 165];
    assert_eq!(check(&c, &info), Err(ProgramError::InvalidAccountData));
    let mut c = claim();
    c.bank.data = vec![1; 10];
    assert_eq!(check(&c, &info), Err(ProgramError::InvalidAccountData));
}

#[test]
fn derived_addresses_are_the_platforms() {
    let program = Pubkey::new_from_array(PROGRAM);
    let (base, bump) = Pubkey::find_program_address(&[&MINT[..]], &program);
    let seed = bs58::encode(SIGNER).into_string();
    let derived = Pubkey::create_with_seed(&base, &seed, &spl_token::id()).unwrap();
    let pair = find_address_pair(&PROGRAM, &MINT, SIGNER).unwrap();
    assert_eq!(pair.base.address, base.to_bytes());
    assert_eq!(pair.base.seed, bump);
    assert_eq!(pair.derive.address, derived.to_bytes());
    assert_eq!(pair.derive.seed, seed);
    assert_ne!(pair.derive.address, pair.base.address);
    assert_ne!(pair.base.address, MINT);

    let nonce_seed = [b"N_".as_ref(), &SIGNER[..]].concat();
    let (nonce, nonce_bump) =
        Pubkey::find_program_address(&[&base.to_bytes()[..], &nonce_seed], &program);
    assert_eq!(
        find_nonce_address(&PROGRAM, &MINT, &nonce_seed),
        Some((base.to_bytes(), nonce.to_bytes(), nonce_bump))
    );
    // Seeds that are too long derive nothing.
    assert_eq!(find_nonce_address(&PROGRAM, &MINT, &[0; 33]), None);
}

#[test]
fn token_transfer_is_bounded_by_the_balance() {
    let c = claim();
    let pair = find_address_pair(&PROGRAM, &MINT, SIGNER).unwrap();
    let transfer = Processor::token_transfer(&c.bank, &PROGRAM, SIGNER, 500).unwrap();
    assert_eq!(transfer.amount, 500);
    assert_eq!(transfer.mint, MINT);
    assert_eq!(transfer.bump_seed, pair.base.seed);
    assert_eq!(
        Processor::token_transfer(&c.bank, &PROGRAM, SIGNER, 501).err(),
        Some(ProgramError::InsufficientFunds)
    );
    assert_eq!(
        Processor::token_transfer(&c.bank, &PROGRAM, SIGNER, 0).err(),
        Some(ProgramError::InsufficientFunds)
    );
    assert_eq!(
        Processor::token_transfer(&c.bank, &PROGRAM, [1; 20], 10).err(),
        Some(ProgramError::InvalidSeeds)
    );
}

fn rent_sysvar() -> Account {
    plain(solana_program::sysvar::rent::id().to_bytes(), 1, Vec::new())
}

#[test]
fn transfer_instruction_is_processed() {
    let c = claim();
    let input = ClaimableProgramInstruction::Transfer(SIGNER).try_to_vec();
    assert_eq!(input.len(), 21);
    assert_eq!(input[0], 1);
    let info = sysvar(
        &[
            (secp_id(), recovery(&SIGNER, 0, &payload(DESTINATION, 120, 0))),
            (PROGRAM, input.clone()),
        ],
        1,
    );
    let funder = plain([30; 32], 10_000_000, Vec::new());
    let accounts = vec![
        funder,
        c.bank.clone(),
        c.destination.clone(),
        c.nonce.clone(),
        c.authority.clone(),
        rent_sysvar(),
        info,
    ];
    match Processor::process_instruction(&PROGRAM, &accounts, &input, RENT).unwrap() {
        Outcome::Transfer(plan) => {
            assert_eq!(plan.signed.amount, 120);
            assert!(plan.signed.create_nonce_account.is_some());
            assert_eq!(plan.signed.nonce_record.nonce, 1);
            assert_eq!(plan.transfer.amount, 120);
            assert_eq!(plan.transfer.mint, MINT);
        }
        _ => panic!("not a transfer"),
    }
    assert_eq!(
        Processor::process_instruction(&PROGRAM, &accounts[..6], &input, RENT).err(),
        Some(ProgramError::NotEnoughAccountKeys)
    );
    assert_eq!(
        Processor::process_instruction(&PROGRAM, &accounts, &input[..20], RENT).err(),
        Some(ProgramError::DecodeError)
    );
    let mut wrong_rent = accounts.clone();
    wrong_rent[5].key = [1; 32];
    assert_eq!(
        Processor::process_instruction(&PROGRAM, &wrong_rent, &input, RENT).err(),
        Some(ProgramError::BindingError)
    );
    // More than the account holds.
    let greedy = sysvar(
        &[
            (secp_id(), recovery(&SIGNER, 0, &payload(DESTINATION, 501, 0))),
            (PROGRAM, input.clone()),
        ],
        1,
    );
    let mut accounts = accounts;
    accounts[6] = greedy;
    assert_eq!(
        Processor::process_instruction(&PROGRAM, &accounts, &input, RENT).err(),
        Some(ProgramError::InsufficientFunds)
    );
}

#[test]
fn token_account_is_created_for_an_initialized_mint() {
    let pair = find_address_pair(&PROGRAM, &MINT, SIGNER).unwrap();
    let mint = spl_token::state::Mint {
        mint_authority: COption::None,
        supply: 100,
        decimals: 4,
        is_initialized: true,
        freeze_authority: COption::None,
    };
    let mut mint_data = vec![0u8; spl_token::state::Mint::LEN];
    spl_token::state::Mint::pack(mint, &mut mint_data).unwrap();

    let input = ClaimableProgramInstruction::CreateTokenAccount(CreateTokenAccount {
        eth_address: SIGNER,
    })
    .try_to_vec();
    assert_eq!(input[0], 0);
    let accounts = vec![
        plain([30; 32], 10_000_000, Vec::new()),
        plain(MINT, 9000, mint_data),
        plain(pair.base.address, 0, Vec::new()),
        plain(pair.derive.address, 0, Vec::new()),
        rent_sysvar(),
    ];
    match Processor::process_instruction(&PROGRAM, &accounts, &input, RENT).unwrap() {
        Outcome::TokenAccount(create, initialize) => {
            assert_eq!(create.seed, pair.derive.seed);
            assert_eq!(create.lamports, RENT.token_account);
            assert_eq!(create.space, 165);
            assert_eq!(create.owner, spl_token::id().to_bytes());
            assert_eq!(create.bump_seed, pair.base.seed);
            assert_eq!(initialize.account, pair.derive.address);
            assert_eq!(initialize.mint, MINT);
            assert_eq!(initialize.owner, pair.base.address);
        }
        _ => panic!("not a creation"),
    }
    let mut uninitialized = accounts.clone();
    uninitialized[1].data = vec![0; spl_token::state::Mint::LEN];
    assert_eq!(
        Processor::process_instruction(&PROGRAM, &uninitialized, &input, RENT).err(),
        Some(ProgramError::InvalidAccountData)
    );
    let mut elsewhere = accounts.clone();
    elsewhere[3].key = [1; 32];
    assert_eq!(
        Processor::process_instruction(&PROGRAM, &elsewhere, &input, RENT).err(),
        Some(ProgramError::InvalidSeeds)
    );
    let created = Processor::create_account(&PROGRAM, &accounts[0], &accounts[3], 9, 77);
    assert_eq!(created.from, [30; 32]);
    assert_eq!(created.to, pair.derive.address);
    assert_eq!(created.lamports, 77);
    assert_eq!(created.space, 9);
    assert_eq!(created.owner, PROGRAM);
}

#[test]
fn transfer_payload_is_read_back() {
    let data = payload([3; 32], 0x0102, u64::MAX);
    let mut expected = vec![3u8; 32];
    expected.extend_from_slice(&[2, 1, 0, 0, 0, 0, 0, 0]);
    expected.extend_from_slice(&[255; 8]);
    assert_eq!(data, expected);
    let read = TransferInstructionData::try_from_slice(&data).unwrap();
    assert_eq!(read.target_pubkey, [3; 32]);
    assert_eq!(read.amount, 258);
    assert_eq!(read.nonce, u64::MAX);
    assert_eq!(
        TransferInstructionData::try_from_slice(&data[..47]).err(),
        Some(ProgramError::DecodeError)
    );
}

#[test]
fn position_beyond_the_index_range_is_rejected() {
    let c = claim();
    // 257 instructions before the transfer; the recovery instruction stands
    // at position 256, which no index field of one byte can name.
    let mut instructions: Vec<([u8; 32], Vec<u8>)> = Vec::new();
    for _ in 0..256 {
        instructions.push(([77; 32], vec![0]));
    }
    instructions.push((secp_id(), recovery(&SIGNER, 0, &payload(DESTINATION, 120, 0))));
    instructions.push((PROGRAM, vec![1]));
    let info = sysvar(&instructions, 257);
    assert_eq!(check(&c, &info), Err(ProgramError::SignatureVerificationFailed));
    // At position 255 the same instruction passes.
    let mut instructions: Vec<([u8; 32], Vec<u8>)> = Vec::new();
    for _ in 0..255 {
        instructions.push(([77; 32], vec![0]));
    }
    instructions.push((secp_id(), recovery(&SIGNER, 255, &payload(DESTINATION, 120, 0))));
    instructions.push((PROGRAM, vec![1]));
    let info = sysvar(&instructions, 256);
    assert_eq!(check(&c, &info).map(|r| r.0), Ok(120));
}
