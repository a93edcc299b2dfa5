use secp_attestation::account::{Account, Instruction};
use secp_attestation::error::ProgramError;
use secp_attestation::reward_manager::instruction::{
    change_manager_authority, create_sender, create_sender_public, delete_sender,
    delete_sender_public, evaluate_attestations, init, submit_attestations, Instructions,
    SubmitAttestationsArgs,
};
use secp_attestation::reward_manager::processor::Processor;
use secp_attestation::reward_manager::state::{RewardManager, SenderAccount};
use secp_attestation::reward_manager::utils::{find_derived_pair, find_program_address};
use secp_attestation::secp::SecpSignatureOffsets;
use solana_program::pubkey::Pubkey;
use solana_program::sysvar::instructions::{
    construct_instructions_data, store_current_index, BorrowedInstruction,
};

const ADD_SENDER_MESSAGE_PREFIX: &str = "add";
const DELETE_SENDER_MESSAGE_PREFIX: &str = "delete";
const SENDER_SEED_PREFIX: &str = "S_";

fn program_id() -> [u8; 32] {
    bs58_id("BhNALTyahpbQBQ9fMAeLPeH85eCog3sidaTjDtdA4WuW")
}

fn bs58_id(text: &str) -> [u8; 32] {
    let bytes = bs58::decode(text).into_vec().unwrap();
    let mut id = [0u8; 32];
    id.copy_from_slice(&bytes);
    id
}

fn secp_id() -> [u8; 32] {
    solana_program::secp256k1_program::id().to_bytes()
}

fn sysvar_id() -> [u8; 32] {
    solana_program::sysvar::instructions::id().to_bytes()
}

struct World {
    accounts: Vec<Account>,
}

impl World {
    fn get(&self, key: &[u8; 32]) -> Account {
        for account in &self.accounts {
            if account.key == *key {
                return account.clone();
            }
        }
        Account {
            key: *key,
            owner: [0; 32],
            lamports: 0,
            data: Vec::new(),
            is_signer: false,
            is_writable: false,
        }
    }

    fn put(&mut self, updated: Account) {
        for account in self.accounts.iter_mut() {
            if account.key == updated.key {
                *account = updated;
                return;
            }
        }
        self.accounts.push(updated);
    }

    /// Runs every instruction of the reward manager in a transaction; all or
    /// nothing. A failure comes with the place of the instruction.
    fn process_transaction(
        &mut self,
        instructions: &[Instruction],
        signers: &[[u8; 32]],
    ) -> Result<(), (usize, ProgramError)> {
        let keys: Vec<Pubkey> =
            instructions.iter().map(|i| Pubkey::new_from_array(i.program_id)).collect();
        let borrowed: Vec<BorrowedInstruction> = instructions
            .iter()
            .zip(keys.iter())
            .map(|(i, key)| BorrowedInstruction {
                program_id: key,
                accounts: Vec::new(),
                data: &i.data,
            })
            .collect();
        let sysvar_data = construct_instructions_data(&borrowed);
        let mut next = World { accounts: self.accounts.clone() };
        for (index, instruction) in instructions.iter().enumerate() {
            if instruction.program_id != program_id() {
                continue;
            }
            let mut declared: Vec<Account> = Vec::new();
            for meta in &instruction.accounts {
                let mut account = next.get(&meta.pubkey);
                if meta.pubkey == sysvar_id() {
                    let mut data = sysvar_data.clone();
                    store_current_index(&mut data, index as u16);
                    account.data = data;
                    account.lamports = 1;
                }
                if meta.is_signer && !signers.contains(&meta.pubkey) {
                    return Err((index, ProgramError::AuthorizationError));
                }
                account.is_signer = meta.is_signer;
                account.is_writable = meta.is_writable;
                declared.push(account);
            }
            next.dispatch(&declared, &instruction.data).map_err(|e| (index, e))?;
        }
        self.accounts = next.accounts;
        Ok(())
    }

    fn dispatch(&mut self, a: &[Account], input: &[u8]) -> Result<(), ProgramError> {
        let id = program_id();
        match Instructions::try_from_slice(input)? {
            Instructions::InitRewardManager(args) => {
                let record = Processor::process_init_instruction(
                    &id,
                    &a[0],
                    &a[1],
                    &a[3],
                    &a[4],
                    args.min_votes,
                )?;
                self.store(&a[0], record.try_to_vec());
            }
            Instructions::ChangeManagerAccount => {
                let record = Processor::process_change_manager_authority(&a[0], &a[1], &a[2])?;
                self.store(&a[0], record.try_to_vec());
            }
            Instructions::CreateSender(args) => {
                let creation = Processor::process_create_sender(
                    &id,
                    &a[0],
                    &a[1],
                    &a[2],
                    &a[4],
                    args.eth_address,
                    args.operator,
                )?;
                self.create(&a[4], creation.record.try_to_vec());
            }
            Instructions::DeleteSender => {
                let deletion = Processor::process_delete_sender(&a[0], &a[1], &a[2])?;
                self.close(&a[2], &a[3], deletion.record.try_to_vec(), deletion.refund);
            }
            Instructions::CreateSenderPublic(args) => {
                let positions: Vec<u16> = (0..(a.len() - 7) as u16).collect();
                let creation = Processor::process_create_sender_public(
                    &id,
                    &a[0],
                    &a[1],
                    &a[3],
                    &a[4],
                    &a[7..],
                    &positions,
                    args.eth_address,
                    args.operator,
                )?;
                self.create(&a[3], creation.record.try_to_vec());
            }
            Instructions::DeleteSenderPublic => {
                let positions: Vec<u16> = (0..(a.len() - 4) as u16).collect();
                let deletion = Processor::process_delete_sender_public(
                    &a[0],
                    &a[1],
                    &a[3],
                    &a[4..],
                    &positions,
                )?;
                self.close(&a[1], &a[2], deletion.record.try_to_vec(), deletion.refund);
            }
            _ => return Err(ProgramError::InvalidArgument),
        }
        Ok(())
    }

    fn store(&mut self, account: &Account, data: Vec<u8>) {
        let mut updated = self.get(&account.key);
        updated.data = data;
        self.put(updated);
    }

    fn create(&mut self, account: &Account, data: Vec<u8>) {
        let mut updated = self.get(&account.key);
        assert_eq!(updated.lamports, 0);
        updated.owner = program_id();
        updated.lamports = 1_000;
        updated.data = data;
        self.put(updated);
    }

    fn close(&mut self, account: &Account, refunded: &Account, data: Vec<u8>, refund: u64) {
        let mut closed = self.get(&account.key);
        assert_eq!(closed.lamports, refund);
        closed.lamports = 0;
        closed.data = data;
        self.put(closed);
        let mut target = self.get(&refunded.key);
        target.lamports += refund;
        self.put(target);
    }
}

struct TestConstants {
    world: World,
    reward_manager: [u8; 32],
    manager_account: [u8; 32],
    payer: [u8; 32],
}

const MIN_VOTES: u8 = 3;

fn setup_test_environment() -> TestConstants {
    let reward_manager = [1u8; 32];
    let manager_account = [2u8; 32];
    let token_account = [3u8; 32];
    let mint = [4u8; 32];
    let payer = [5u8; 32];
    let mut world = World { accounts: Vec::new() };
    world.put(Account {
        key: reward_manager,
        owner: program_id(),
        lamports: 9000,
        data: vec![0; RewardManager::LEN],
        is_signer: false,
        is_writable: false,
    });
    world
        .process_transaction(
            &[init(&program_id(), &reward_manager, &token_account, &mint, &manager_account, MIN_VOTES)
                .unwrap()],
            &[],
        )
        .unwrap();
    TestConstants { world, reward_manager, manager_account, payer }
}

fn eth_address_of(key: &[u8; 32]) -> [u8; 20] {
    let secret = libsecp256k1::SecretKey::parse(key).unwrap();
    let public = libsecp256k1::PublicKey::from_secret_key(&secret);
    solana_sdk::secp256k1_instruction::construct_eth_pubkey(&public)
}

fn new_secp256k1_instruction_2_0(
    key: &[u8; 32],
    message: &[u8],
    instruction_index: u8,
) -> Instruction {
    let secret = libsecp256k1::SecretKey::parse(key).unwrap();
    let hash = solana_sdk::keccak::hash(message);
    let parsed = libsecp256k1::Message::parse(&hash.to_bytes());
    let (signature, recovery_id) = libsecp256k1::sign(&parsed, &secret);
    let offsets = SecpSignatureOffsets {
        signature_offset: 32,
        signature_instruction_index: instruction_index,
        eth_address_offset: 12,
        eth_address_instruction_index: instruction_index,
        message_data_offset: 97,
        message_data_size: message.len() as u16,
        message_instruction_index: instruction_index,
    };
    let mut data = vec![1u8];
    data.extend_from_slice(&offsets.try_to_vec());
    data.extend_from_slice(&eth_address_of(key));
    data.extend_from_slice(&signature.serialize());
    data.push(recovery_id.serialize());
    data.extend_from_slice(message);
    Instruction { program_id: secp_id(), accounts: Vec::new(), data }
}

fn sender_address(reward_manager: &[u8; 32], eth_address: &[u8; 20]) -> [u8; 32] {
    let seed = [SENDER_SEED_PREFIX.as_bytes(), &eth_address[..]].concat();
    let (_, derived, _) = find_derived_pair(&program_id(), reward_manager, &seed).unwrap();
    derived
}

/// Adds the sender of a secret key on the manager's word.
fn create_sender_from(t: &mut TestConstants, key: &[u8; 32], operator: [u8; 20]) -> [u8; 32] {
    let eth_address = eth_address_of(key);
    t.world
        .process_transaction(
            &[create_sender(
                &program_id(),
                &t.reward_manager,
                &t.manager_account,
                &t.payer,
                eth_address,
                operator,
            )
            .unwrap()],
            &[t.manager_account, t.payer],
        )
        .unwrap();
    sender_address(&t.reward_manager, &eth_address)
}

fn add_message(reward_manager: &[u8; 32], eth_address: &[u8; 20]) -> Vec<u8> {
    [ADD_SENDER_MESSAGE_PREFIX.as_bytes(), &reward_manager[..], &eth_address[..]].concat()
}

fn sender_of(world: &World, key: &[u8; 32]) -> SenderAccount {
    SenderAccount::try_from_slice(&world.get(key).data).unwrap()
}

const KEYS: [[u8; 32]; 3] = [[11; 32], [12; 32], [13; 32]];
const OPERATORS: [[u8; 20]; 3] = [[21; 20], [22; 20], [23; 20]];

#[test]
fn success_create_sender_public() {
    let mut t = setup_test_environment();
    let eth_address: [u8; 20] = [31; 20];
    let operator: [u8; 20] = [32; 20];
    let mut signers = [[0u8; 32]; 3];
    for (i, key) in KEYS.iter().enumerate() {
        signers[i] = create_sender_from(&mut t, key, OPERATORS[i]);
    }
    let derived_address = sender_address(&t.reward_manager, &eth_address);

    let mut instructions = Vec::<Instruction>::new();
    let message = add_message(&t.reward_manager, &eth_address);
    for item in KEYS.iter().enumerate() {
        instructions.push(new_secp256k1_instruction_2_0(item.1, message.as_ref(), item.0 as _));
    }
    instructions.push(
        create_sender_public(
            &program_id(),
            &t.reward_manager,
            &t.payer,
            eth_address,
            operator,
            &signers,
        )
        .unwrap(),
    );
    t.world.process_transaction(&instructions, &[t.payer]).unwrap();

    assert_eq!(
        SenderAccount::new(t.reward_manager, eth_address, operator),
        sender_of(&t.world, &derived_address)
    );
}

#[test]
fn failure_create_duplicate_sender() {
    let mut t = setup_test_environment();
    let eth_address: [u8; 20] = [31; 20];
    let operator: [u8; 20] = [32; 20];
    let mut signers = [[0u8; 32]; 3];
    for (i, key) in KEYS.iter().enumerate() {
        signers[i] = create_sender_from(&mut t, key, OPERATORS[i]);
    }
    let derived_address = sender_address(&t.reward_manager, &eth_address);
    let message = add_message(&t.reward_manager, &eth_address);

    let mut instructions = Vec::<Instruction>::new();
    for item in KEYS.iter().enumerate() {
        instructions.push(new_secp256k1_instruction_2_0(item.1, message.as_ref(), item.0 as _));
    }
    instructions.push(
        create_sender_public(
            &program_id(),
            &t.reward_manager,
            &t.payer,
            eth_address,
            operator,
            &signers,
        )
        .unwrap(),
    );
    t.world.process_transaction(&instructions, &[t.payer]).unwrap();
    assert_eq!(
        SenderAccount::new(t.reward_manager, eth_address, operator),
        sender_of(&t.world, &derived_address)
    );

    // The identical sender again.
    let failed = t.world.process_transaction(&instructions, &[t.payer]);
    assert!(failed.is_err());
    assert_eq!(failed, Err((3, ProgramError::AlreadyInitialized)));
}

#[test]
fn failure_create_sender_public_mismatched_signature_to_pubkey() {
    let mut t = setup_test_environment();
    let eth_address: [u8; 20] = [31; 20];
    let operator: [u8; 20] = [32; 20];
    // Accounts that hold no sender stand in for the signers.
    let signers = [[41u8; 32], [42u8; 32], [43u8; 32]];
    for (i, key) in KEYS.iter().enumerate() {
        create_sender_from(&mut t, key, OPERATORS[i]);
    }
    let mut instructions = Vec::<Instruction>::new();
    let message = add_message(&t.reward_manager, &eth_address);
    for item in KEYS.iter().enumerate() {
        instructions.push(new_secp256k1_instruction_2_0(item.1, message.as_ref(), item.0 as _));
    }
    instructions.push(
        create_sender_public(
            &program_id(),
            &t.reward_manager,
            &t.payer,
            eth_address,
            operator,
            &signers,
        )
        .unwrap(),
    );
    match t.world.process_transaction(&instructions, &[t.payer]) {
        Err((3, ProgramError::DecodeError)) => assert!(true),
        _ => panic!("Returned incorrect error!"),
    }
}

#[test]
fn failure_create_sender_public_mismatched_pubkey_to_signature() {
    let mut t = setup_test_environment();
    let eth_address: [u8; 20] = [31; 20];
    let operator: [u8; 20] = [32; 20];
    let signers = [[41u8; 32], [42u8; 32], [43u8; 32]];
    // Senders of other keys than the ones that sign.
    for (i, key) in [[51u8; 32], [52u8; 32], [53u8; 32]].iter().enumerate() {
        create_sender_from(&mut t, key, OPERATORS[i]);
    }
    let mut instructions = Vec::<Instruction>::new();
    let message = add_message(&t.reward_manager, &eth_address);
    for item in KEYS.iter().enumerate() {
        instructions.push(new_secp256k1_instruction_2_0(item.1, message.as_ref(), item.0 as _));
    }
    instructions.push(
        create_sender_public(
            &program_id(),
            &t.reward_manager,
            &t.payer,
            eth_address,
            operator,
            &signers,
        )
        .unwrap(),
    );
    let tx_result = t.world.process_transaction(&instructions, &[t.payer]);
    println!("{:?}", tx_result);
    match tx_result {
        Err((3, ProgramError::DecodeError)) => assert!(true),
        _ => panic!("Returned incorrect error!"),
    }
}

#[test]
fn failure_create_sender_public_signed_by_other_keys() {
    let mut t = setup_test_environment();
    let eth_address: [u8; 20] = [31; 20];
    let operator: [u8; 20] = [32; 20];
    let mut signers = [[0u8; 32]; 3];
    for (i, key) in KEYS.iter().enumerate() {
        signers[i] = create_sender_from(&mut t, key, OPERATORS[i]);
    }
    let mut instructions = Vec::<Instruction>::new();
    let message = add_message(&t.reward_manager, &eth_address);
    for item in [[51u8; 32], [52u8; 32], [53u8; 32]].iter().enumerate() {
        instructions.push(new_secp256k1_instruction_2_0(item.1, message.as_ref(), item.0 as _));
    }
    instructions.push(
        create_sender_public(
            &program_id(),
            &t.reward_manager,
            &t.payer,
            eth_address,
            operator,
            &signers,
        )
        .unwrap(),
    );
    assert_eq!(
        t.world.process_transaction(&instructions, &[t.payer]),
        Err((3, ProgramError::SignatureVerificationFailed))
    );
}

#[test]
fn failure_create_sender_missing_attestations() {
    let mut t = setup_test_environment();
    let eth_address: [u8; 20] = [31; 20];
    let operator: [u8; 20] = [32; 20];
    let mut signers = [[0u8; 32]; 2];
    for (i, key) in KEYS[..2].iter().enumerate() {
        signers[i] = create_sender_from(&mut t, key, OPERATORS[i]);
    }
    let mut instructions = Vec::<Instruction>::new();
    // Only two senders attest.
    let message = add_message(&t.reward_manager, &eth_address);
    for item in KEYS[..2].iter().enumerate() {
        instructions.push(new_secp256k1_instruction_2_0(item.1, message.as_ref(), item.0 as _));
    }
    instructions.push(
        create_sender_public(
            &program_id(),
            &t.reward_manager,
            &t.payer,
            eth_address,
            operator,
            &signers,
        )
        .unwrap(),
    );
    let res = t.world.process_transaction(&instructions, &[t.payer]);
    assert_eq!(res, Err((2, ProgramError::NotEnoughSigners)));
}

#[test]
fn failure_create_sender_duplicate_attestation_senders() {
    let mut t = setup_test_environment();
    let eth_address: [u8; 20] = [31; 20];
    let operator: [u8; 20] = [32; 20];
    let mut signers = [[0u8; 32]; 3];
    for (i, key) in KEYS.iter().enumerate() {
        signers[i] = create_sender_from(&mut t, key, OPERATORS[i]);
    }
    let mut instructions = Vec::<Instruction>::new();
    let message = add_message(&t.reward_manager, &eth_address);

    // The first sender twice.
    instructions.push(new_secp256k1_instruction_2_0(&KEYS[0], message.as_ref(), 0 as _));
    for item in KEYS[..2].iter().enumerate() {
        instructions.push(new_secp256k1_instruction_2_0(
            item.1,
            message.as_ref(),
            item.0 as u8 + 1,
        ));
    }
    let signers = [signers[0], signers[0], signers[1]];
    instructions.push(
        create_sender_public(
            &program_id(),
            &t.reward_manager,
            &t.payer,
            eth_address,
            operator,
            &signers,
        )
        .unwrap(),
    );
    let res = t.world.process_transaction(&instructions, &[t.payer]);
    assert_eq!(res, Err((3, ProgramError::RepeatedSigners)));
}

#[test]
fn failure_duplicate_operators() {
    let mut t = setup_test_environment();
    let eth_address: [u8; 20] = [31; 20];
    // The same operator three times.
    let operator: [u8; 20] = [32; 20];
    let mut signers = [[0u8; 32]; 3];
    for (i, key) in KEYS.iter().enumerate() {
        signers[i] = create_sender_from(&mut t, key, operator);
    }
    let mut instructions = Vec::<Instruction>::new();
    let message = add_message(&t.reward_manager, &eth_address);
    for item in KEYS.iter().enumerate() {
        instructions.push(new_secp256k1_instruction_2_0(item.1, message.as_ref(), item.0 as _));
    }
    instructions.push(
        create_sender_public(
            &program_id(),
            &t.reward_manager,
            &t.payer,
            eth_address,
            operator,
            &signers,
        )
        .unwrap(),
    );
    let res = t.world.process_transaction(&instructions, &[t.payer]);
    assert_eq!(res, Err((3, ProgramError::OperatorCollision)));
}

#[test]
fn failure_new_operator_collides_with_one_attestor() {
    let mut t = setup_test_environment();
    let eth_address: [u8; 20] = [31; 20];
    let mut signers = [[0u8; 32]; 3];
    for (i, key) in KEYS.iter().enumerate() {
        signers[i] = create_sender_from(&mut t, key, OPERATORS[i]);
    }
    let mut instructions = Vec::<Instruction>::new();
    let message = add_message(&t.reward_manager, &eth_address);
    for item in KEYS.iter().enumerate() {
        instructions.push(new_secp256k1_instruction_2_0(item.1, message.as_ref(), item.0 as _));
    }
    instructions.push(
        create_sender_public(
            &program_id(),
            &t.reward_manager,
            &t.payer,
            eth_address,
            OPERATORS[2],
            &signers,
        )
        .unwrap(),
    );
    assert_eq!(
        t.world.process_transaction(&instructions, &[t.payer]),
        Err((3, ProgramError::OperatorCollision))
    );
}

#[test]
fn success_init_reward_manager() {
    let manager = [2u8; 32];
    let reward_manager = [1u8; 32];
    let token_account = [3u8; 32];
    let min_votes = 3;
    let t = setup_test_environment();
    assert_eq!(
        RewardManager::new(token_account, manager, min_votes),
        RewardManager::try_from_slice(&t.world.get(&reward_manager).data).unwrap()
    );
    assert!(RewardManager::try_from_slice(&t.world.get(&reward_manager).data)
        .unwrap()
        .is_initialized());
}

#[test]
fn fail_already_initialized() {
    let reward_manager = [1u8; 32];
    let token_account = [3u8; 32];
    let mint = [4u8; 32];
    let manager = [2u8; 32];
    let mut world = World { accounts: Vec::new() };
    world.put(Account {
        key: reward_manager,
        owner: program_id(),
        lamports: 9000,
        data: RewardManager::new(token_account, manager, 3).try_to_vec(),
        is_signer: false,
        is_writable: false,
    });
    assert_eq!(
        world
            .process_transaction(
                &[init(&program_id(), &reward_manager, &token_account, &mint, &manager, 3)
                    .unwrap()],
                &[],
            )
            .unwrap_err(),
        (0, ProgramError::AlreadyInitialized)
    );
}

#[test]
fn init_with_a_false_authority_is_a_binding_error() {
    let reward_manager = Account {
        key: [1u8; 32],
        owner: program_id(),
        lamports: 9000,
        data: vec![0; RewardManager::LEN],
        is_signer: false,
        is_writable: true,
    };
    let mut other = reward_manager.clone();
    other.key = [9u8; 32];
    let (authority, _) = find_program_address(&program_id(), &reward_manager.key).unwrap();
    let (expected, _) = Pubkey::find_program_address(
        &[&reward_manager.key[..]],
        &Pubkey::new_from_array(program_id()),
    );
    assert_eq!(authority, expected.to_bytes());
    let mut genuine = other.clone();
    genuine.key = authority;
    assert_eq!(
        Processor::process_init_instruction(
            &program_id(),
            &reward_manager,
            &other,
            &other,
            &other,
            3
        ),
        Err(ProgramError::BindingError)
    );
    assert_eq!(
        Processor::process_init_instruction(
            &program_id(),
            &reward_manager,
            &other,
            &other,
            &genuine,
            3
        ),
        Ok(RewardManager::new(other.key, other.key, 3))
    );
}

#[test]
fn manager_creates_and_deletes_a_sender() {
    let mut t = setup_test_environment();
    let key = [11u8; 32];
    let eth_address = eth_address_of(&key);
    let sender = create_sender_from(&mut t, &key, [21; 20]);
    assert_eq!(
        sender_of(&t.world, &sender),
        SenderAccount::new(t.reward_manager, eth_address, [21; 20])
    );
    assert!(sender_of(&t.world, &sender).is_initialized());

    // Another account than the manager cannot delete it.
    let stranger = [77u8; 32];
    let refunded = [78u8; 32];
    assert_eq!(
        t.world.process_transaction(
            &[delete_sender(&program_id(), &t.reward_manager, &stranger, &refunded, eth_address)
                .unwrap()],
            &[stranger],
        ),
        Err((0, ProgramError::AuthorizationError))
    );

    t.world
        .process_transaction(
            &[delete_sender(
                &program_id(),
                &t.reward_manager,
                &t.manager_account,
                &refunded,
                eth_address,
            )
            .unwrap()],
            &[t.manager_account],
        )
        .unwrap();
    assert!(!sender_of(&t.world, &sender).is_initialized());
    assert_eq!(t.world.get(&sender).lamports, 0);
    assert_eq!(t.world.get(&refunded).lamports, 1_000);
}

#[test]
fn senders_delete_a_sender() {
    let mut t = setup_test_environment();
    let mut signers = [[0u8; 32]; 3];
    for (i, key) in KEYS.iter().enumerate() {
        signers[i] = create_sender_from(&mut t, key, OPERATORS[i]);
    }
    let doomed_key = [14u8; 32];
    let doomed_address = eth_address_of(&doomed_key);
    let doomed = create_sender_from(&mut t, &doomed_key, [24; 20]);
    let refunded = [78u8; 32];

    let message =
        [DELETE_SENDER_MESSAGE_PREFIX.as_bytes(), &t.reward_manager[..], &doomed_address[..]]
            .concat();
    let mut instructions = Vec::<Instruction>::new();
    for item in KEYS.iter().enumerate() {
        instructions.push(new_secp256k1_instruction_2_0(item.1, &message, item.0 as _));
    }
    instructions.push(
        delete_sender_public(&program_id(), &t.reward_manager, &refunded, doomed_address, &signers)
            .unwrap(),
    );
    t.world.process_transaction(&instructions, &[]).unwrap();
    assert!(!sender_of(&t.world, &doomed).is_initialized());
    assert_eq!(t.world.get(&refunded).lamports, 1_000);

    // An attestation of the addition does not delete.
    let again = create_sender_from(&mut t, &[15u8; 32], [25; 20]);
    let add = add_message(&t.reward_manager, &eth_address_of(&[15u8; 32]));
    let mut instructions = Vec::<Instruction>::new();
    for item in KEYS.iter().enumerate() {
        instructions.push(new_secp256k1_instruction_2_0(item.1, &add, item.0 as _));
    }
    instructions.push(
        delete_sender_public(
            &program_id(),
            &t.reward_manager,
            &refunded,
            eth_address_of(&[15u8; 32]),
            &signers,
        )
        .unwrap(),
    );
    assert_eq!(
        t.world.process_transaction(&instructions, &[]),
        Err((3, ProgramError::SignatureVerificationFailed))
    );
    assert!(sender_of(&t.world, &again).is_initialized());
}

#[test]
fn manager_hands_over() {
    let mut t = setup_test_environment();
    let new_manager = [66u8; 32];
    assert_eq!(
        t.world.process_transaction(
            &[change_manager_authority(
                &program_id(),
                &t.reward_manager,
                &new_manager,
                &new_manager
            )
            .unwrap()],
            &[new_manager],
        ),
        Err((0, ProgramError::AuthorizationError))
    );
    t.world
        .process_transaction(
            &[change_manager_authority(
                &program_id(),
                &t.reward_manager,
                &t.manager_account,
                &new_manager,
            )
            .unwrap()],
            &[t.manager_account],
        )
        .unwrap();
    let record = RewardManager::try_from_slice(&t.world.get(&t.reward_manager).data).unwrap();
    assert_eq!(record.manager, new_manager);
    assert_eq!(record.min_votes, MIN_VOTES);
}

#[test]
fn instructions_declare_their_accounts() {
    let id = program_id();
    let reward_manager = [1u8; 32];
    let seed = [b"V_".as_ref(), b"abc".as_ref()].concat();
    let (authority, verified, _) = find_derived_pair(&id, &reward_manager, &seed).unwrap();
    let submit =
        submit_attestations(&id, &reward_manager, &[8; 32], &[9; 32], "abc".to_string()).unwrap();
    assert_eq!(submit.program_id, id);
    assert_eq!(submit.accounts.len(), 8);
    assert_eq!(submit.accounts[0].pubkey, verified);
    assert!(submit.accounts[0].is_writable);
    assert_eq!(submit.accounts[2].pubkey, authority);
    assert_eq!(submit.accounts[3].pubkey, [9; 32]);
    assert!(submit.accounts[3].is_signer);
    assert_eq!(submit.accounts[4].pubkey, [8; 32]);
    assert_eq!(submit.accounts[5].pubkey, solana_program::sysvar::rent::id().to_bytes());
    assert_eq!(submit.accounts[6].pubkey, sysvar_id());
    assert_eq!(submit.accounts[7].pubkey, solana_program::system_program::id().to_bytes());
    assert_eq!(submit.data, vec![6, 3, 0, 0, 0, b'a', b'b', b'c']);
    assert_eq!(
        Instructions::try_from_slice(&submit.data),
        Ok(Instructions::SubmitAttestations(SubmitAttestationsArgs { id: "abc".to_string() }))
    );

    let seed = [b"T_".as_ref(), b"abc".as_ref()].concat();
    let (_, transfer, _) = find_derived_pair(&id, &reward_manager, &seed).unwrap();
    let evaluate = evaluate_attestations(
        &id,
        &[7; 32],
        &reward_manager,
        &[10; 32],
        &[11; 32],
        &[12; 32],
        &[13; 32],
        258,
        "abc".to_string(),
        [14; 20],
    )
    .unwrap();
    assert_eq!(evaluate.accounts.len(), 11);
    assert_eq!(evaluate.accounts[5].pubkey, transfer);
    assert_eq!(evaluate.accounts[9].pubkey, spl_token::id().to_bytes());
    let mut data = vec![7u8, 2, 1, 0, 0, 0, 0, 0, 0, 3, 0, 0, 0, b'a', b'b', b'c'];
    data.extend_from_slice(&[14; 20]);
    assert_eq!(evaluate.data, data);

    // A seed of more than 32 bytes derives no address.
    let long = "a".repeat(31);
    assert_eq!(
        submit_attestations(&id, &reward_manager, &[8; 32], &[9; 32], long).err(),
        Some(ProgramError::InvalidSeeds)
    );
}

#[test]
fn instruction_payloads_are_read_back() {
    let cases = vec![
        vec![0u8, 3],
        vec![1u8],
        [vec![2u8], vec![5; 20], vec![6; 20]].concat(),
        vec![3u8],
        [vec![4u8], vec![5; 20], vec![6; 20]].concat(),
        vec![5u8],
        vec![6u8, 2, 0, 0, 0, 0xc3, 0xa9],
    ];
    for payload in cases {
        let instruction = Instructions::try_from_slice(&payload).unwrap();
        assert_eq!(instruction.try_to_vec(), Ok(payload));
    }
    // Not UTF-8, a byte too many, an unknown tag, nothing.
    assert_eq!(
        Instructions::try_from_slice(&[6u8, 1, 0, 0, 0, 0xff]),
        Err(ProgramError::DecodeError)
    );
    assert_eq!(Instructions::try_from_slice(&[1u8, 0]), Err(ProgramError::DecodeError));
    assert_eq!(Instructions::try_from_slice(&[8u8]), Err(ProgramError::DecodeError));
    assert_eq!(Instructions::try_from_slice(&[]), Err(ProgramError::DecodeError));
}
