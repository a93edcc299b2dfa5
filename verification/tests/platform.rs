use borsh::BorshSerialize;
use secp_attestation::account::{AccountMeta, Instruction};
use secp_attestation::attestation::{add_tag, canonical_message, delete_tag};
use secp_attestation::cli::{
    decode_eth_address, decode_secret_key, is_hex, message_instructions, send_message,
    signature_data_of,
};
use secp_attestation::error::ProgramError;
use secp_attestation::eth_registry::instruction::{
    init_valid_signer, validate_signature, ColivingInstruction, SignatureData,
};
use secp_attestation::ledger::is_secp256k1_program;
use secp_attestation::listen_count::error::AgreementListenCountError;
use secp_attestation::listen_count::instruction::{init, InstructionArgs, TemplateInstruction};
use secp_attestation::listen_count::state::AgreementData;
use secp_attestation::locator::{current_position, locate_companion, locate_preceding};
use secp_attestation::secp::{parse_recovery, SecpSignatureOffsets, DATA_START};
use solana_program::pubkey::Pubkey;
use solana_program::sysvar::instructions::{
    construct_instructions_data, store_current_index, BorrowedInstruction,
};

fn sysvar(instructions: &[([u8; 32], Vec<u8>)], current: u16) -> secp_attestation::account::Account {
    let keys: Vec<Pubkey> = instructions.iter().map(|i| Pubkey::new_from_array(i.0)).collect();
    let borrowed: Vec<BorrowedInstruction> = instructions
        .iter()
        .zip(keys.iter())
        .map(|(i, key)| BorrowedInstruction { program_id: key, accounts: Vec::new(), data: &i.1 })
        .collect();
    let mut data = construct_instructions_data(&borrowed);
    store_current_index(&mut data, current);
    secp_attestation::account::Account {
        key: solana_program::sysvar::instructions::id().to_bytes(),
        owner: [0; 32],
        lamports: 1,
        data,
        is_signer: false,
        is_writable: false,
    }
}

#[test]
fn offsets_record_is_eleven_bytes() {
    let offsets = SecpSignatureOffsets {
        signature_offset: 32,
        signature_instruction_index: 1,
        eth_address_offset: 12,
        eth_address_instruction_index: 2,
        message_data_offset: 97,
        message_data_size: 0x0203,
        message_instruction_index: 3,
    };
    let bytes = offsets.try_to_vec();
    assert_eq!(bytes, vec![32, 0, 1, 12, 0, 2, 97, 0, 3, 2, 3]);
    assert_eq!(bytes.len(), SecpSignatureOffsets::SIGNATURE_OFFSETS_SERIALIZED_SIZE);
    assert_eq!(DATA_START, 12);
    assert_eq!(SecpSignatureOffsets::try_from_slice(&bytes), Ok(offsets));
    assert_eq!(SecpSignatureOffsets::try_from_slice(&bytes[..10]), Err(ProgramError::DecodeError));
    assert_eq!(SecpSignatureOffsets::default().try_to_vec(), vec![0; 11]);
}

#[test]
fn recovery_hands_out_address_id_and_message() {
    let mut data = vec![1u8];
    data.extend_from_slice(&[32, 0, 7, 12, 0, 7, 97, 0, 3, 0, 7]);
    data.extend_from_slice(&[4; 20]);
    data.extend_from_slice(&[5; 64]);
    data.push(1);
    data.extend_from_slice(b"abc");
    let recovered = parse_recovery(&data, 7).unwrap();
    assert_eq!(recovered.eth_address, [4; 20]);
    assert_eq!(recovered.recovery_id, 1);
    assert_eq!(recovered.message, b"abc".to_vec());
    assert_eq!(parse_recovery(&data, 0).err(), Some(ProgramError::SignatureVerificationFailed));
}

#[test]
fn well_known_ids_are_the_platforms() {
    assert!(is_secp256k1_program(&solana_program::secp256k1_program::id().to_bytes()));
    assert!(!is_secp256k1_program(&[0; 32]));
    assert_eq!(
        bs58::encode(solana_program::secp256k1_program::id().to_bytes()).into_string(),
        "KeccakSecp256k11111111111111111111111111111"
    );
    // The builders declare the sysvars by their ids.
    let args = InstructionArgs {
        agreement_data: AgreementData {
            user_id: "u".to_string(),
            agreement_id: "a".to_string(),
            source: "s".to_string(),
            timestamp: -2,
        },
        signature: [6; 64],
        recovery_id: 1,
    };
    let listen = init(&[1; 32], &[2; 32], &[3; 32], &[4; 32], args.clone()).unwrap();
    assert_eq!(listen.program_id, [1; 32]);
    assert_eq!(listen.accounts.len(), 5);
    assert_eq!(listen.accounts[0].pubkey, [2; 32]);
    assert_eq!(listen.accounts[1].pubkey, [3; 32]);
    assert_eq!(listen.accounts[2].pubkey, [4; 32]);
    assert_eq!(
        bs58::encode(listen.accounts[3].pubkey).into_string(),
        "Sysvar1nstructions1111111111111111111111111"
    );
    assert_eq!(
        bs58::encode(listen.accounts[4].pubkey).into_string(),
        "SysvarC1ock11111111111111111111111111111111"
    );
    assert!(listen.accounts.iter().all(|m| !m.is_signer && !m.is_writable));
    let mut data = vec![0u8, 1, 0, 0, 0, b'u', 1, 0, 0, 0, b'a', 1, 0, 0, 0, b's'];
    data.extend_from_slice(&[0xfe, 0xff, 0xff, 0xff, 0xff, 0xff, 0xff, 0xff]);
    data.extend_from_slice(&[6; 64]);
    data.push(1);
    assert_eq!(listen.data, data);
    match TemplateInstruction::try_from_slice(&data).unwrap() {
        TemplateInstruction::AgreementListenInstruction(read) => {
            assert_eq!(read.agreement_data, args.agreement_data);
            assert_eq!(read.signature, [6; 64]);
            assert_eq!(read.recovery_id, 1);
        }
    }
    assert_eq!(
        TemplateInstruction::try_from_slice(&data[..data.len() - 1]).err(),
        Some(ProgramError::DecodeError)
    );
}

#[test]
fn account_metas_are_writable_or_not() {
    let a = AccountMeta::new([1; 32], true);
    assert!(a.is_writable && a.is_signer);
    let b = AccountMeta::new_readonly([1; 32], false);
    assert!(!b.is_writable && !b.is_signer);
    assert_eq!(b.pubkey, [1; 32]);
}

#[test]
fn locator_reads_the_transaction() {
    let secp = solana_program::secp256k1_program::id().to_bytes();
    let info = sysvar(&[(secp, vec![1, 2]), ([9; 32], vec![3]), ([8; 32], vec![4])], 1);
    assert_eq!(current_position(&info), Ok(1));
    assert_eq!(locate_companion(&info, 0), Ok(vec![1, 2]));
    assert_eq!(locate_companion(&info, 1), Err(ProgramError::BindingError));
    assert_eq!(locate_companion(&info, 3), Err(ProgramError::OrderingError));
    assert_eq!(locate_preceding(&info), Ok((0, vec![1, 2])));
    let at_start = sysvar(&[(secp, vec![1, 2])], 0);
    assert_eq!(locate_preceding(&at_start), Err(ProgramError::OrderingError));
    let mut short = info.clone();
    short.data = vec![0];
    assert_eq!(current_position(&short), Err(ProgramError::DecodeError));
    let mut false_key = info.clone();
    false_key.key = [1; 32];
    assert_eq!(current_position(&false_key), Err(ProgramError::BindingError));
    assert_eq!(locate_companion(&false_key, 0), Err(ProgramError::BindingError));
}

#[test]
fn canonical_messages_bind_tag_group_and_target() {
    assert_eq!(add_tag(), *b"add");
    assert_eq!(delete_tag(), *b"delete");
    let message = canonical_message(&add_tag(), &[1; 32], &[2; 20]);
    assert_eq!(message, [b"add".as_ref(), &[1; 32], &[2; 20]].concat());
    assert_eq!(message.len(), 55);
}

#[test]
fn hex_arguments_are_checked() {
    assert_eq!(is_hex("00ffAb".to_string()), Ok(()));
    assert_eq!(is_hex("".to_string()), Ok(()));
    assert_eq!(is_hex("0".to_string()), Err("Wrong address format".to_string()));
    assert_eq!(is_hex("0g".to_string()), Err("Wrong address format".to_string()));
    assert_eq!(is_hex("0x00".to_string()), Err("Wrong address format".to_string()));

    let text = "000102030405060708090a0B0c0D0e0F10111213";
    let mut expected = [0u8; 20];
    for (i, byte) in expected.iter_mut().enumerate() {
        *byte = i as u8;
    }
    assert_eq!(decode_eth_address(text), Some(expected));
    assert_eq!(decode_eth_address(&text[2..]), None);
    assert_eq!(decode_eth_address("zz0102030405060708090a0B0c0D0e0F10111213"), None);
    assert_eq!(decode_secret_key(&"ab".repeat(32)), Some([0xab; 32]));
    assert_eq!(decode_secret_key(&"ab".repeat(31)), None);
}

#[test]
fn signed_message_passes_its_own_validation() {
    let secret = [21u8; 32];
    let message = b"hello attestation".to_vec();
    let (recovery, validate) =
        send_message(&[42; 32], &[50; 32], &[1; 32], &secret, &message).unwrap();
    assert!(is_secp256k1_program(&recovery.program_id));
    assert!(recovery.accounts.is_empty());
    assert_ne!(recovery.data, message);

    // The instruction is the platform's own.
    let key = libsecp256k1::SecretKey::parse(&secret).unwrap();
    let built = solana_sdk::secp256k1_instruction::new_secp256k1_instruction(&key, &message);
    assert_eq!(recovery.data, built.data);

    // Its layout is the fixed one, at position 0, for the key's address.
    let public = libsecp256k1::PublicKey::from_secret_key(&key);
    let address = solana_sdk::secp256k1_instruction::construct_eth_pubkey(&public);
    let recovered = parse_recovery(&recovery.data, 0).unwrap();
    assert_eq!(recovered.eth_address, address);
    assert_eq!(recovered.message, message);

    // The second instruction carries the recovery id and the message.
    let data = signature_data_of(&recovery.data, &message).unwrap();
    assert_eq!(data.recovery_id, recovered.recovery_id);
    assert_eq!(data.message, message);
    let expected = validate_signature(&[42; 32], &[50; 32], &[1; 32], data).unwrap();
    assert_eq!(validate.data, expected.data);
    assert_eq!(validate.accounts.len(), 3);

    // No key, no instructions.
    assert_eq!(
        send_message(&[42; 32], &[50; 32], &[1; 32], &[0; 32], &message).err(),
        Some(ProgramError::InvalidArgument)
    );
    assert_eq!(
        message_instructions(&[42; 32], &[50; 32], &[1; 32], vec![1, 2, 3], &message).err(),
        Some(ProgramError::InvalidArgument)
    );
    assert!(signature_data_of(&recovery.data[..96], &message).is_none());
}

#[test]
fn registry_payloads_agree_with_borsh() {
    let a = SignatureData { recovery_id: 1, message: vec![7, 8, 9] };
    let b = SignatureData { recovery_id: 0, message: vec![] };
    let c = SignatureData { recovery_id: 3, message: vec![1; 300] };
    let plain = |s: &SignatureData| (s.recovery_id, s.message.clone());

    let cases: Vec<(ColivingInstruction, Vec<u8>)> = vec![
        (ColivingInstruction::InitSignerGroup, 0u8.try_to_vec().unwrap()),
        (
            ColivingInstruction::InitValidSigner([5; 20]),
            (1u8, [5u8; 20]).try_to_vec().unwrap(),
        ),
        (ColivingInstruction::ClearValidSigner, 2u8.try_to_vec().unwrap()),
        (
            ColivingInstruction::ValidateMultipleSignaturesClearValidSigner(
                a.clone(),
                b.clone(),
                c.clone(),
            ),
            (3u8, plain(&a), plain(&b), plain(&c)).try_to_vec().unwrap(),
        ),
        (
            ColivingInstruction::ValidateSignature(a.clone()),
            (4u8, plain(&a)).try_to_vec().unwrap(),
        ),
        (ColivingInstruction::DisableSignerGroupOwner, 5u8.try_to_vec().unwrap()),
        (
            ColivingInstruction::ValidateMultipleSignaturesAddSigner(
                a.clone(),
                b.clone(),
                c.clone(),
                [6; 20],
            ),
            (6u8, plain(&a), plain(&b), plain(&c), [6u8; 20]).try_to_vec().unwrap(),
        ),
    ];
    for (instruction, expected) in cases {
        let written = instruction.try_to_vec().unwrap();
        assert_eq!(written, expected);
        let read = ColivingInstruction::try_from_slice(&written).unwrap();
        assert_eq!(read.try_to_vec().unwrap(), written);
        let mut longer = written.clone();
        longer.push(0);
        assert_eq!(
            ColivingInstruction::try_from_slice(&longer).err(),
            Some(ProgramError::DecodeError)
        );
    }
    assert_eq!(
        ColivingInstruction::try_from_slice(&[4, 1, 9, 0, 0, 0, 1]).err(),
        Some(ProgramError::DecodeError)
    );
    let built: Instruction = init_valid_signer(&[1; 32], &[2; 32], &[3; 32], &[4; 32], [5; 20])
        .unwrap();
    assert_eq!(built.data, (1u8, [5u8; 20]).try_to_vec().unwrap());
    assert_eq!(built.accounts.len(), 3);
    assert!(built.accounts[0].is_writable && !built.accounts[0].is_signer);
    assert!(!built.accounts[2].is_writable && built.accounts[2].is_signer);
}

#[test]
fn listen_count_errors_have_numbers() {
    assert_eq!(AgreementListenCountError::InstructionUnpackError.code(), 0);
    assert_eq!(AgreementListenCountError::InvalidAgreementData.code(), 1);
    assert_eq!(AgreementListenCountError::InvalidTimestamp.code(), 2);
    assert_eq!(
        AgreementListenCountError::from_u32(2),
        Some(AgreementListenCountError::InvalidTimestamp)
    );
    assert_eq!(AgreementListenCountError::from_u32(3), None);
    assert_eq!(
        ProgramError::from(AgreementListenCountError::InvalidAgreementData),
        ProgramError::Custom(1)
    );
    assert_eq!(AgreementListenCountError::type_of(), "AgreementListenCountError");
    assert_eq!(
        AgreementListenCountError::InstructionUnpackError.message(),
        "Instruction unpack error"
    );
    assert_eq!(
        AgreementListenCountError::InvalidAgreementData.message(),
        "Invalid agreement data were passed"
    );
    assert_eq!(
        AgreementListenCountError::InvalidTimestamp.message(),
        "Difference between timestamp and current time is too big"
    );
}

#[test]
fn id_bytes_are_the_stated_ones() {
    assert_eq!(
        solana_program::secp256k1_program::id().to_bytes(),
        [
            4u8, 198, 252, 32, 240, 80, 204, 240, 85, 132, 215, 33, 28, 159, 140, 245, 158, 193,
            71, 133, 187, 22, 106, 30, 40, 48, 232, 18, 32, 0, 0, 0,
        ]
    );
    assert_eq!(solana_program::system_program::id().to_bytes(), [0u8; 32]);
    assert_eq!(
        solana_program::sysvar::instructions::id().to_bytes(),
        [
            6u8, 167, 213, 23, 24, 123, 209, 102, 53, 218, 212, 4, 85, 253, 194, 192, 193, 36, 198,
            143, 33, 86, 117, 165, 219, 186, 203, 95, 8, 0, 0, 0,
        ]
    );
    assert_eq!(
        solana_program::sysvar::clock::id().to_bytes(),
        [
            6u8, 167, 213, 23, 24, 199, 116, 201, 40, 86, 99, 152, 105, 29, 94, 182, 139, 94, 184,
            163, 155, 75, 109, 92, 115, 85, 91, 33, 0, 0, 0, 0,
        ]
    );
    assert_eq!(
        solana_program::sysvar::rent::id().to_bytes(),
        [
            6u8, 167, 213, 23, 25, 44, 92, 81, 33, 140, 201, 76, 61, 74, 241, 127, 88, 218, 238, 8,
            155, 161, 253, 68, 227, 219, 217, 138, 0, 0, 0, 0,
        ]
    );
    assert_eq!(
        spl_token::id().to_bytes(),
        [
            6u8, 221, 246, 225, 215, 101, 161, 147, 217, 203, 225, 70, 206, 235, 121, 172, 28, 180,
            133, 237, 95, 91, 55, 145, 58, 140, 245, 133, 126, 255, 0, 169,
        ]
    );
    assert_eq!(
        bs58::encode(secp_attestation::reward_manager::id()).into_string(),
        "BhNALTyahpbQBQ9fMAeLPeH85eCog3sidaTjDtdA4WuW"
    );
    assert!(secp_attestation::reward_manager::check_id(&secp_attestation::reward_manager::id()));
    assert!(!secp_attestation::reward_manager::check_id(&[0; 32]));
    assert_eq!(secp_attestation::reward_manager::PROGRAM_VERSION, 1);
}
