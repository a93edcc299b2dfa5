//! Program state processor.
//!
//! The processor decides; it moves no funds and creates no account. What it
//! returns says which accounts the caller has to create, what to store in
//! them and which transfer to invoke, all or nothing.

use crate::account::Account;
use crate::attestation::{bind_signer, bound_message};
use crate::claimable_tokens::instruction::{
    ClaimableProgramInstruction, ClaimableProgramInstructionView,
};
use crate::claimable_tokens::state::{
    NonceAccount, TransferInstructionData, TransferInstructionDataView,
};
use crate::claimable_tokens::utils::{
    find_address_pair, find_nonce_address, nonce_account_seed, spec_address_pair,
    spec_nonce_address, spec_nonce_seed,
};
use crate::codec::slices_equal;
use crate::error::{yields, ProgramError};
use crate::ledger::{
    mint_unpacks, spec_sysvar_rent_id, spec_token_program_id, sysvar_rent_id, token_program_id,
    unpack_token_account, unpacked_token_account, unpacks_to_mint, TOKEN_ACCOUNT_LEN,
};
use crate::locator::{locate_preceding, preceding_companion};
use vstd::prelude::*;

verus! {

/// The transfer that the recovery instruction found at `index` attests: the
/// instruction must be bound to `signer`, its message must be a transfer
/// payload, and the payload's destination must be `expected_message`.
pub open spec fn signed_transfer(
    data: Seq<u8>,
    index: int,
    signer: Seq<u8>,
    expected_message: Seq<u8>,
) -> Result<TransferInstructionDataView, ProgramError> {
    match bound_message(data, index, signer) {
        Err(e) => Err(e),
        Ok(message) => if message.len() == 48 && TransferInstructionData::decode(
            message,
        ).target_pubkey == expected_message {
            Ok(TransferInstructionData::decode(message))
        } else {
            Err(ProgramError::SignatureVerificationFailed)
        },
    }
}

/// An account to create through the system program.
#[derive(Clone, Copy, Debug, PartialEq, Eq)]
pub struct CreateAccount {
    /// The account that pays.
    pub from: [u8; 32],
    /// The account to create.
    pub to: [u8; 32],
    /// The balance to reserve.
    pub lamports: u64,
    /// The size of the account's data.
    pub space: u64,
    /// The program that will own the account.
    pub owner: [u8; 32],
}

/// What a verified attestation allows: the signed amount, and the counter
/// record to store in the signer's counter account.
#[derive(Clone, Copy, Debug, PartialEq, Eq)]
pub struct SignedTransfer {
    /// The signed amount.
    pub amount: u64,
    /// The counter account to create first, where the signer has none yet.
    pub create_nonce_account: Option<CreateAccount>,
    /// The bump seed of the counter account's address.
    pub bump_seed: u8,
    /// The advanced counter to store.
    pub nonce_record: NonceAccount,
}

/// The counter account that the funder pays for, owned by the program.
pub open spec fn nonce_account_creation(
    program_id: [u8; 32],
    funder: Account,
    nonce_account: Account,
    nonce_rent: u64,
) -> CreateAccount {
    CreateAccount {
        from: funder.key,
        to: nonce_account.key,
        lamports: nonce_rent,
        space: NonceAccount::LEN as u64,
        owner: program_id,
    }
}

/// The verdict on a signed transfer once the signer's counter is known. A
/// counter account without a balance does not exist yet and is to be
/// created.
pub open spec fn guarded_transfer(
    transfer: TransferInstructionDataView,
    program_id: [u8; 32],
    funder: Account,
    nonce_account: Account,
    nonce_rent: u64,
    bump_seed: u8,
) -> Result<SignedTransfer, ProgramError> {
    match NonceAccount::current(nonce_account.lamports, nonce_account.data@) {
        Err(e) => Err(e),
        Ok(counter) => match counter.advance_outcome(transfer.nonce) {
            Err(e) => Err(e),
            Ok(next) => Ok(
                SignedTransfer {
                    amount: transfer.amount,
                    create_nonce_account: if nonce_account.lamports == 0 {
                        Some(nonce_account_creation(program_id, funder, nonce_account, nonce_rent))
                    } else {
                        None
                    },
                    bump_seed,
                    nonce_record: next,
                },
            ),
        },
    }
}

/// The verdict on the attestation that precedes a transfer instruction:
/// locate the recovery instruction, bind it to the signer and the
/// destination, hold the declared counter account and authority against the
/// derived ones, and advance the counter.
pub open spec fn ethereum_sign_outcome(
    program_id: [u8; 32],
    funder: Account,
    instruction_info: Account,
    banks_token_account: Account,
    nonce_account: Account,
    authority: Account,
    expected_signer: Seq<u8>,
    expected_message: Seq<u8>,
    nonce_rent: u64,
) -> Result<SignedTransfer, ProgramError> {
    match preceding_companion(instruction_info) {
        Err(e) => Err(e),
        Ok((position, data)) => match signed_transfer(
            data,
            position as int,
            expected_signer,
            expected_message,
        ) {
            Err(e) => Err(e),
            Ok(transfer) => match unpacked_token_account(banks_token_account.data@) {
                None => Err(ProgramError::InvalidAccountData),
                Some((mint, _, _)) => match spec_nonce_address(
                    program_id@,
                    mint,
                    spec_nonce_seed(expected_signer),
                ) {
                    None => Err(ProgramError::InvalidSeeds),
                    Some((base, derived, bump)) => if derived != nonce_account.key@ || base
                        != authority.key@ {
                        Err(ProgramError::BindingError)
                    } else {
                        guarded_transfer(
                            transfer,
                            program_id,
                            funder,
                            nonce_account,
                            nonce_rent,
                            bump,
                        )
                    },
                },
            },
        },
    }
}

/// A transfer to invoke on the token program, signed for the authority with
/// the mint and the bump seed.
#[derive(Clone, Copy, Debug)]
pub struct TokenTransfer {
    /// The amount to transfer.
    pub amount: u64,
    /// The mint of the source account.
    pub mint: [u8; 32],
    /// The bump seed of the authority's address.
    pub bump_seed: u8,
}

/// A token transfer as a mathematical value.
pub struct TokenTransferView {
    pub amount: u64,
    pub mint: Seq<u8>,
    pub bump_seed: u8,
}

impl View for TokenTransfer {
    type V = TokenTransferView;

    open spec fn view(&self) -> TokenTransferView {
        TokenTransferView { amount: self.amount, mint: self.mint@, bump_seed: self.bump_seed }
    }
}

/// Whether a transfer of `amount` out of `source` may be invoked: the source
/// must be the token account derived for the external address, and must hold
/// the amount, which must not be zero.
pub open spec fn token_transfer_outcome(
    source: Account,
    program_id: Seq<u8>,
    eth_address: Seq<u8>,
    amount: u64,
) -> Result<TokenTransferView, ProgramError> {
    match unpacked_token_account(source.data@) {
        None => Err(ProgramError::InvalidAccountData),
        Some((mint, _, held)) => match spec_address_pair(program_id, mint, eth_address) {
            None => Err(ProgramError::InvalidSeeds),
            Some((_, bump, derived, _)) => if source.key@ != derived {
                Err(ProgramError::InvalidSeeds)
            } else if amount == 0 || amount > held {
                Err(ProgramError::InsufficientFunds)
            } else {
                Ok(TokenTransferView { amount, mint, bump_seed: bump })
            },
        },
    }
}

/// A verified transfer: what to store in the counter account and what to
/// invoke on the token program.
#[derive(Clone, Copy, Debug)]
pub struct TransferPlan {
    /// The verified attestation.
    pub signed: SignedTransfer,
    /// The transfer to invoke.
    pub transfer: TokenTransfer,
}

/// A verified transfer as a mathematical value.
pub struct TransferPlanView {
    pub signed: SignedTransfer,
    pub transfer: TokenTransferView,
}

impl View for TransferPlan {
    type V = TransferPlanView;

    open spec fn view(&self) -> TransferPlanView {
        TransferPlanView { signed: self.signed, transfer: self.transfer@ }
    }
}

/// The verdict on a transfer instruction: the attestation first, then the
/// token transfer of the signed amount.
pub open spec fn transfer_outcome(
    program_id: [u8; 32],
    nonce_rent: u64,
    funder: Account,
    banks_token_account: Account,
    destination: Account,
    nonce_account: Account,
    authority: Account,
    instruction_info: Account,
    eth_address: Seq<u8>,
) -> Result<TransferPlanView, ProgramError> {
    match ethereum_sign_outcome(
        program_id,
        funder,
        instruction_info,
        banks_token_account,
        nonce_account,
        authority,
        eth_address,
        destination.key@,
        nonce_rent,
    ) {
        Err(e) => Err(e),
        Ok(signed) => match token_transfer_outcome(
            banks_token_account,
            program_id@,
            eth_address,
            signed.amount,
        ) {
            Err(e) => Err(e),
            Ok(transfer) => Ok(TransferPlanView { signed, transfer }),
        },
    }
}

/// A token account to create at an address derived with a seed text, signed
/// for the authority with the mint and the bump seed.
#[derive(Clone, Debug)]
pub struct CreateTokenAccount {
    /// The seed text of the derivation.
    pub seed: String,
    /// The balance to reserve.
    pub lamports: u64,
    /// The size of the account's data.
    pub space: u64,
    /// The program that will own the account: the token program.
    pub owner: [u8; 32],
    /// The bump seed of the authority's address.
    pub bump_seed: u8,
}

/// A token account to create, as a mathematical value.
pub struct CreateTokenAccountView {
    pub seed: Seq<char>,
    pub lamports: u64,
    pub space: u64,
    pub owner: Seq<u8>,
    pub bump_seed: u8,
}

impl View for CreateTokenAccount {
    type V = CreateTokenAccountView;

    open spec fn view(&self) -> CreateTokenAccountView {
        CreateTokenAccountView {
            seed: self.seed@,
            lamports: self.lamports,
            space: self.space,
            owner: self.owner@,
            bump_seed: self.bump_seed,
        }
    }
}

/// Whether the token account of an external address may be created: the
/// declared authority and account must be the derived ones.
pub open spec fn create_token_account_outcome(
    program_id: Seq<u8>,
    account_to_create: Account,
    mint_key: Seq<u8>,
    base: Account,
    eth_address: Seq<u8>,
    required_lamports: u64,
    space: u64,
) -> Result<CreateTokenAccountView, ProgramError> {
    match spec_address_pair(program_id, mint_key, eth_address) {
        None => Err(ProgramError::InvalidSeeds),
        Some((authority, bump, derived, seed)) => if base.key@ != authority
            || account_to_create.key@ != derived {
            Err(ProgramError::InvalidSeeds)
        } else {
            Ok(
                CreateTokenAccountView {
                    seed,
                    lamports: required_lamports,
                    space,
                    owner: spec_token_program_id(),
                    bump_seed: bump,
                },
            )
        },
    }
}

/// A token account to initialize through the token program.
#[derive(Clone, Copy, Debug)]
pub struct InitializeAccount {
    /// The account to initialize.
    pub account: [u8; 32],
    /// The mint of its tokens.
    pub mint: [u8; 32],
    /// The account's owner: the mint's authority.
    pub owner: [u8; 32],
}

/// The verdict on a `CreateTokenAccount` instruction: the mint must be
/// initialized, and the account must be the derived one.
pub open spec fn init_outcome(
    program_id: Seq<u8>,
    mint: Account,
    base: Account,
    acc_to_create: Account,
    required_lamports: u64,
    eth_address: Seq<u8>,
) -> Result<CreateTokenAccountView, ProgramError> {
    if !unpacks_to_mint(mint.data@) {
        Err(ProgramError::InvalidAccountData)
    } else {
        create_token_account_outcome(
            program_id,
            acc_to_create,
            mint.key@,
            base,
            eth_address,
            required_lamports,
            TOKEN_ACCOUNT_LEN as u64,
        )
    }
}

/// What the caller has to do for an accepted instruction.
#[derive(Clone, Debug)]
pub enum Outcome {
    /// Create the token account, then initialize it.
    TokenAccount(CreateTokenAccount, InitializeAccount),
    /// Store the counter, then invoke the transfer.
    Transfer(TransferPlan),
}

/// The balances that exempt the program's accounts from rent.
#[derive(Clone, Copy, Debug)]
pub struct RentExemption {
    /// The balance for a token account.
    pub token_account: u64,
    /// The balance for a counter account.
    pub nonce_account: u64,
}

/// What the caller has to do, as a mathematical value.
pub enum OutcomeView {
    TokenAccount(CreateTokenAccountView, InitializeAccount),
    Transfer(TransferPlanView),
}

impl View for Outcome {
    type V = OutcomeView;

    open spec fn view(&self) -> OutcomeView {
        match *self {
            Outcome::TokenAccount(create, initialize) => OutcomeView::TokenAccount(
                create@,
                initialize,
            ),
            Outcome::Transfer(plan) => OutcomeView::Transfer(plan@),
        }
    }
}

/// The verdict on an instruction: its payload must decode, the accounts it
/// needs must be declared in order, the rent account must be the rent
/// sysvar, and the operation itself must be accepted.
pub open spec fn instruction_outcome(
    program_id: [u8; 32],
    accounts: Seq<Account>,
    input: Seq<u8>,
    rent: RentExemption,
) -> Result<OutcomeView, ProgramError> {
    match ClaimableProgramInstruction::decode(input) {
        Err(e) => Err(e),
        Ok(ClaimableProgramInstructionView::CreateTokenAccount(eth_address)) => {
            if accounts.len() < 5 {
                Err(ProgramError::NotEnoughAccountKeys)
            } else if accounts[4].key@ != spec_sysvar_rent_id() {
                Err(ProgramError::BindingError)
            } else {
                match init_outcome(
                    program_id@,
                    accounts[1],
                    accounts[2],
                    accounts[3],
                    rent.token_account,
                    eth_address,
                ) {
                    Err(e) => Err(e),
                    Ok(create) => Ok(
                        OutcomeView::TokenAccount(
                            create,
                            InitializeAccount {
                                account: accounts[3].key,
                                mint: accounts[1].key,
                                owner: accounts[2].key,
                            },
                        ),
                    ),
                }
            }
        },
        Ok(ClaimableProgramInstructionView::Transfer(eth_address)) => {
            if accounts.len() < 7 {
                Err(ProgramError::NotEnoughAccountKeys)
            } else if accounts[5].key@ != spec_sysvar_rent_id() {
                Err(ProgramError::BindingError)
            } else {
                match transfer_outcome(
                    program_id,
                    rent.nonce_account,
                    accounts[0],
                    accounts[1],
                    accounts[2],
                    accounts[3],
                    accounts[4],
                    accounts[6],
                    eth_address,
                ) {
                    Err(e) => Err(e),
                    Ok(plan) => Ok(OutcomeView::Transfer(plan)),
                }
            }
        },
    }
}

/// Program state handler.
pub struct Processor;

impl Processor {
    /// Checks that the message inside a recovery instruction was signed by
    /// the expected signer and names the expected destination. Returns the
    /// transfer that was signed: destination, amount and nonce.
    pub fn validate_eth_signature(
        expected_signer: &[u8; 20],
        expected_message: &[u8],
        secp_instruction_data: Vec<u8>,
        instruction_index: u8,
    ) -> (r: Result<TransferInstructionData, ProgramError>)
        ensures
            yields(
                r,
                signed_transfer(
                    secp_instruction_data@,
                    instruction_index as int,
                    expected_signer@,
                    expected_message@,
                ),
            ),
    {
        let message = match bind_signer(
            secp_instruction_data.as_slice(),
            instruction_index as u16,
            expected_signer,
        ) {
            Ok(m) => m,
            Err(e) => { return Err(e); },
        };
        let decoded = match TransferInstructionData::try_from_slice(message.as_slice()) {
            Ok(t) => t,
            Err(_) => { return Err(ProgramError::SignatureVerificationFailed); },
        };
        if !slices_equal(decoded.target_pubkey.as_slice(), expected_message) {
            return Err(ProgramError::SignatureVerificationFailed);
        }
        Ok(decoded)
    }

    /// Holds a signed transfer against the signer's counter and advances
    /// the counter.
    pub fn guard_transfer(
        program_id: &[u8; 32],
        funder: &Account,
        transfer: &TransferInstructionData,
        nonce_account: &Account,
        nonce_rent: u64,
        bump_seed: u8,
    ) -> (r: Result<SignedTransfer, ProgramError>)
        ensures
            r == guarded_transfer(
                transfer@,
                *program_id,
                *funder,
                *nonce_account,
                nonce_rent,
                bump_seed,
            ),
    {
        let counter = match NonceAccount::load(nonce_account.lamports, nonce_account.data.as_slice()) {
            Ok(c) => c,
            Err(e) => { return Err(e); },
        };
        let next = match counter.advance(transfer.nonce) {
            Ok(n) => n,
            Err(e) => { return Err(e); },
        };
        let create_nonce_account = if nonce_account.lamports == 0 {
            Some(
                Self::create_account(program_id, funder, nonce_account, NonceAccount::LEN, nonce_rent),
            )
        } else {
            None
        };
        Ok(
            SignedTransfer {
                amount: transfer.amount,
                create_nonce_account,
                bump_seed,
                nonce_record: next,
            },
        )
    }

    /// Checks that the owner of an external address signed the transfer to
    /// `expected_message` with the nonce that the counter stands at.
    pub fn check_ethereum_sign(
        program_id: &[u8; 32],
        funder_account_info: &Account,
        instruction_info: &Account,
        banks_token_account_info: &Account,
        nonce_account_info: &Account,
        authority: &Account,
        expected_signer: &[u8; 20],
        expected_message: &[u8],
        nonce_rent: u64,
    ) -> (r: Result<SignedTransfer, ProgramError>)
        ensures
            r == ethereum_sign_outcome(
                *program_id,
                *funder_account_info,
                *instruction_info,
                *banks_token_account_info,
                *nonce_account_info,
                *authority,
                expected_signer@,
                expected_message@,
                nonce_rent,
            ),
    {
        let (position, data) = match locate_preceding(instruction_info) {
            Ok(found) => found,
            Err(e) => { return Err(e); },
        };
        if position > 255 {
            return Err(ProgramError::SignatureVerificationFailed);
        }
        let transfer_data = match Self::validate_eth_signature(
            expected_signer,
            expected_message,
            data,
            position as u8,
        ) {
            Ok(t) => t,
            Err(e) => { return Err(e); },
        };
        let token_account_info = match unpack_token_account(
            banks_token_account_info.data.as_slice(),
        ) {
            Some(t) => t,
            None => { return Err(ProgramError::InvalidAccountData); },
        };
        let nonce_acct_seed = nonce_account_seed(expected_signer);
        let (base_address, derived_nonce_address, bump_seed) = match find_nonce_address(
            program_id,
            &token_account_info.mint,
            nonce_acct_seed.as_slice(),
        ) {
            Some(found) => found,
            None => { return Err(ProgramError::InvalidSeeds); },
        };
        if !slices_equal(derived_nonce_address.as_slice(), nonce_account_info.key.as_slice()) {
            return Err(ProgramError::BindingError);
        }
        if !slices_equal(base_address.as_slice(), authority.key.as_slice()) {
            return Err(ProgramError::BindingError);
        }
        Self::guard_transfer(
            program_id,
            funder_account_info,
            &transfer_data,
            nonce_account_info,
            nonce_rent,
            bump_seed,
        )
    }

    /// Decides the transfer of `amount` out of the token account of an
    /// external address.
    pub fn token_transfer(
        source: &Account,
        program_id: &[u8; 32],
        eth_address: [u8; 20],
        amount: u64,
    ) -> (r: Result<TokenTransfer, ProgramError>)
        ensures
            yields(r, token_transfer_outcome(*source, program_id@, eth_address@, amount)),
    {
        let source_data = match unpack_token_account(source.data.as_slice()) {
            Some(t) => t,
            None => { return Err(ProgramError::InvalidAccountData); },
        };
        let pair = match find_address_pair(program_id, &source_data.mint, eth_address) {
            Ok(p) => p,
            Err(e) => { return Err(e); },
        };
        if !slices_equal(source.key.as_slice(), pair.derive.address.as_slice()) {
            return Err(ProgramError::InvalidSeeds);
        }
        if amount == 0 || amount > source_data.amount {
            return Err(ProgramError::InsufficientFunds);
        }
        Ok(TokenTransfer { amount, mint: source_data.mint, bump_seed: pair.base.seed })
    }

    /// Transfers user tokens, gated by the recovery of the owner's
    /// signature.
    pub fn process_transfer_instruction(
        program_id: &[u8; 32],
        nonce_rent: u64,
        funder_account_info: &Account,
        banks_token_account_info: &Account,
        destination_account_info: &Account,
        nonce_account_info: &Account,
        authority_account_info: &Account,
        instruction_info: &Account,
        eth_address: [u8; 20],
    ) -> (r: Result<TransferPlan, ProgramError>)
        ensures
            yields(
                r,
                transfer_outcome(
                    *program_id,
                    nonce_rent,
                    *funder_account_info,
                    *banks_token_account_info,
                    *destination_account_info,
                    *nonce_account_info,
                    *authority_account_info,
                    *instruction_info,
                    eth_address@,
                ),
            ),
    {
        let signed = match Self::check_ethereum_sign(
            program_id,
            funder_account_info,
            instruction_info,
            banks_token_account_info,
            nonce_account_info,
            authority_account_info,
            &eth_address,
            destination_account_info.key.as_slice(),
            nonce_rent,
        ) {
            Ok(s) => s,
            Err(e) => { return Err(e); },
        };
        let transfer = match Self::token_transfer(
            banks_token_account_info,
            program_id,
            eth_address,
            signed.amount,
        ) {
            Ok(t) => t,
            Err(e) => { return Err(e); },
        };
        Ok(TransferPlan { signed, transfer })
    }

    /// Describes the creation of an account that `program_id` will own.
    pub fn create_account(
        program_id: &[u8; 32],
        from: &Account,
        to: &Account,
        space: usize,
        required_lamports: u64,
    ) -> (r: CreateAccount)
        ensures
            r == (CreateAccount {
                from: from.key,
                to: to.key,
                lamports: required_lamports,
                space: space as u64,
                owner: *program_id,
            }),
    {
        CreateAccount {
            from: from.key,
            to: to.key,
            lamports: required_lamports,
            space: space as u64,
            owner: *program_id,
        }
    }

    /// Decides the creation of the token account of an external address.
    pub fn create_token_account(
        program_id: &[u8; 32],
        account_to_create: &Account,
        mint_key: &[u8; 32],
        base: &Account,
        eth_address: [u8; 20],
        required_lamports: u64,
        space: u64,
    ) -> (r: Result<CreateTokenAccount, ProgramError>)
        ensures
            yields(
                r,
                create_token_account_outcome(
                    program_id@,
                    *account_to_create,
                    mint_key@,
                    *base,
                    eth_address@,
                    required_lamports,
                    space,
                ),
            ),
    {
        let pair = match find_address_pair(program_id, mint_key, eth_address) {
            Ok(p) => p,
            Err(e) => { return Err(e); },
        };
        if !slices_equal(base.key.as_slice(), pair.base.address.as_slice()) {
            return Err(ProgramError::InvalidSeeds);
        }
        if !slices_equal(account_to_create.key.as_slice(), pair.derive.address.as_slice()) {
            return Err(ProgramError::InvalidSeeds);
        }
        Ok(
            CreateTokenAccount {
                seed: pair.derive.seed,
                lamports: required_lamports,
                space,
                owner: token_program_id(),
                bump_seed: pair.base.seed,
            },
        )
    }

    /// Describes the initialization of a user's token account.
    pub fn initialize_token_account(
        account_to_initialize: &Account,
        mint: &Account,
        owner: &Account,
    ) -> (r: InitializeAccount)
        ensures
            r.account == account_to_initialize.key,
            r.mint == mint.key,
            r.owner == owner.key,
    {
        InitializeAccount {
            account: account_to_initialize.key,
            mint: mint.key,
            owner: owner.key,
        }
    }

    /// Initializes the token account of an external address.
    pub fn process_init_instruction(
        program_id: &[u8; 32],
        mint_account_info: &Account,
        base_account_info: &Account,
        acc_to_create_info: &Account,
        required_lamports: u64,
        eth_address: [u8; 20],
    ) -> (r: Result<(CreateTokenAccount, InitializeAccount), ProgramError>)
        ensures
            match init_outcome(
                program_id@,
                *mint_account_info,
                *base_account_info,
                *acc_to_create_info,
                required_lamports,
                eth_address@,
            ) {
                Err(e) => r matches Err(x) && x == e,
                Ok(create) => r matches Ok(plan) && plan.0@ == create && plan.1.account
                    == acc_to_create_info.key && plan.1.mint == mint_account_info.key
                    && plan.1.owner == base_account_info.key,
            },
    {
        if !mint_unpacks(mint_account_info.data.as_slice()) {
            return Err(ProgramError::InvalidAccountData);
        }
        let create = match Self::create_token_account(
            program_id,
            acc_to_create_info,
            &mint_account_info.key,
            base_account_info,
            eth_address,
            required_lamports,
            TOKEN_ACCOUNT_LEN as u64,
        ) {
            Ok(c) => c,
            Err(e) => { return Err(e); },
        };
        let initialize = Self::initialize_token_account(
            acc_to_create_info,
            mint_account_info,
            base_account_info,
        );
        Ok((create, initialize))
    }

    /// Processes an instruction.
    pub fn process_instruction(
        program_id: &[u8; 32],
        accounts: &[Account],
        input: &[u8],
        rent: RentExemption,
    ) -> (r: Result<Outcome, ProgramError>)
        ensures
            yields(r, instruction_outcome(*program_id, accounts@, input@, rent)),
    {
        let instruction = match ClaimableProgramInstruction::try_from_slice(input) {
            Ok(i) => i,
            Err(e) => { return Err(e); },
        };
        let rent_id = sysvar_rent_id();
        match instruction {
            ClaimableProgramInstruction::CreateTokenAccount(args) => {
                if accounts.len() < 5 {
                    return Err(ProgramError::NotEnoughAccountKeys);
                }
                if !slices_equal(accounts[4].key.as_slice(), rent_id.as_slice()) {
                    return Err(ProgramError::BindingError);
                }
                match Self::process_init_instruction(
                    program_id,
                    &accounts[1],
                    &accounts[2],
                    &accounts[3],
                    rent.token_account,
                    args.eth_address,
                ) {
                    Ok((create, initialize)) => Ok(Outcome::TokenAccount(create, initialize)),
                    Err(e) => Err(e),
                }
            },
            ClaimableProgramInstruction::Transfer(eth_address) => {
                if accounts.len() < 7 {
                    return Err(ProgramError::NotEnoughAccountKeys);
                }
                if !slices_equal(accounts[5].key.as_slice(), rent_id.as_slice()) {
                    return Err(ProgramError::BindingError);
                }
                match Self::process_transfer_instruction(
                    program_id,
                    rent.nonce_account,
                    &accounts[0],
                    &accounts[1],
                    &accounts[2],
                    &accounts[3],
                    &accounts[4],
                    &accounts[6],
                    eth_address,
                ) {
                    Ok(plan) => Ok(Outcome::Transfer(plan)),
                    Err(e) => Err(e),
                }
            },
        }
    }
}

} // verus!
