use vstd::prelude::*;
use crate::instruction::{AccountMeta, Instruction, InstructionView, instruction_views};
use crate::pubkey::Pubkey;
use solana_sdk::pubkey::Pubkey as SdkPubkey;
use solana_stake_program::stake_instruction;
use solana_stake_program::stake_state::Authorized as SdkAuthorized;
use solana_stake_program::stake_state::Lockup as SdkLockup;
use solana_stake_program::stake_state::StakeAuthorize as SdkStakeAuthorize;

verus! {

/// The two roles that hold authority over a stake account.
#[derive(Clone, Copy, Debug, PartialEq, Eq)]
pub enum StakeAuthorize {
    /// May delegate, deactivate and split the stake.
    Staker,
    /// May withdraw from the account.
    Withdrawer,
}

/// The keys that hold the two roles over a stake account.
#[derive(Clone, Copy, Debug, PartialEq, Eq)]
pub struct Authorized {
    pub staker: Pubkey,
    pub withdrawer: Pubkey,
}

/// Until when a stake account refuses withdrawals, unless the custodian
/// signs.
#[derive(Clone, Copy, Debug, PartialEq, Eq)]
pub struct Lockup {
    /// The time, in seconds since the epoch of Unix, until which the lockup
    /// holds.
    pub unix_timestamp: i64,
    /// The epoch of the ledger until which the lockup holds.
    pub epoch: u64,
    /// The key whose signature lifts the lockup.
    pub custodian: Pubkey,
}

impl Default for Lockup {
    /// No lockup: no time, no epoch and the zero key as custodian.
    fn default() -> (lockup: Lockup)
        ensures
            lockup.unix_timestamp == 0,
            lockup.epoch == 0,
            lockup.custodian@ == Seq::new(32, |i: int| 0u8),
    {
        Lockup { unix_timestamp: 0, epoch: 0, custodian: Pubkey::default() }
    }
}

/// The id of the stake program: the bytes that the text
/// `Stake11111111111111111111111111111111111111` stands for in base 58.
pub open spec fn stake_program_id() -> Seq<u8> {
    seq![
        6u8, 161u8, 216u8, 23u8, 145u8, 55u8, 84u8, 42u8,
        152u8, 52u8, 55u8, 189u8, 254u8, 42u8, 122u8, 178u8,
        85u8, 127u8, 83u8, 92u8, 138u8, 120u8, 114u8, 43u8,
        104u8, 164u8, 157u8, 192u8, 0u8, 0u8, 0u8, 0u8,
    ]
}

/// The instructions that create the stake account `stake` at the address
/// seeded by `base` and `seed`, fund it from `from` with `lamports` and set
/// its authorities and its lockup.
pub uninterp spec fn create_account_with_seed_instructions(
    from: Seq<u8>,
    stake: Seq<u8>,
    base: Seq<u8>,
    seed: Seq<char>,
    staker: Seq<u8>,
    withdrawer: Seq<u8>,
    lockup_unix_timestamp: i64,
    lockup_epoch: u64,
    lockup_custodian: Seq<u8>,
    lamports: u64,
) -> Seq<InstructionView>;

/// The instructions that split `lamports` off the stake account `stake`, on
/// the authority of `authority`, into the account `split_stake` at the address
/// seeded by `base` and `seed`.
pub uninterp spec fn split_with_seed_instructions(
    stake: Seq<u8>,
    authority: Seq<u8>,
    lamports: u64,
    split_stake: Seq<u8>,
    base: Seq<u8>,
    seed: Seq<char>,
) -> Seq<InstructionView>;

/// The instruction by which `authority` hands one role over the stake account
/// `stake` to `new_authority`.
pub uninterp spec fn authorize_instruction(
    stake: Seq<u8>,
    authority: Seq<u8>,
    new_authority: Seq<u8>,
    role: StakeAuthorize,
) -> InstructionView;

/// The id of the stake program.
///
/// Calls `solana_stake_program::id`, which returns the constant that the crate
/// declares from the text `Stake11111111111111111111111111111111111111`. The
/// contract gives its thirty-two bytes.
#[verifier::external_body]
pub(crate) fn id() -> (id: Pubkey)
    ensures
        id@ == stake_program_id(),
{
    Pubkey(solana_stake_program::id().to_bytes())
}

/// Instructions that create a stake account at a seeded address.
///
/// Calls `solana_stake_program::stake_instruction::create_account_with_seed`.
/// The contract names what it returns and claims nothing else of it.
#[verifier::external_body]
pub(crate) fn create_account_with_seed(
    from: &Pubkey,
    stake: &Pubkey,
    base: &Pubkey,
    seed: &str,
    authorized: &Authorized,
    lockup: &Lockup,
    lamports: u64,
) -> (instructions: Vec<Instruction>)
    ensures
        instruction_views(instructions@) == create_account_with_seed_instructions(
            from@,
            stake@,
            base@,
            seed@,
            authorized.staker@,
            authorized.withdrawer@,
            lockup.unix_timestamp,
            lockup.epoch,
            lockup.custodian@,
            lamports,
        ),
{
    let authorized = SdkAuthorized {
        staker: SdkPubkey::new_from_array(authorized.staker.0),
        withdrawer: SdkPubkey::new_from_array(authorized.withdrawer.0),
    };
    let lockup = SdkLockup { unix_timestamp: lockup.unix_timestamp, epoch: lockup.epoch, custodian: SdkPubkey::new_from_array(lockup.custodian.0) };
    let instructions = stake_instruction::create_account_with_seed(&SdkPubkey::new_from_array(from.0), &SdkPubkey::new_from_array(stake.0), &SdkPubkey::new_from_array(base.0), seed, &authorized, &lockup, lamports);
    instructions.into_iter().map(|ix| Instruction {
        program_id: Pubkey(ix.program_id.to_bytes()),
        accounts: ix.accounts.iter().map(|a| AccountMeta { pubkey: Pubkey(a.pubkey.to_bytes()), is_signer: a.is_signer, is_writable: a.is_writable }).collect(),
        data: ix.data,
    }).collect()
}

/// Instructions that split a stake account into one at a seeded address.
///
/// Calls `solana_stake_program::stake_instruction::split_with_seed`. The
/// contract names what it returns and claims nothing else of it.
#[verifier::external_body]
pub(crate) fn split_with_seed(
    stake: &Pubkey,
    authority: &Pubkey,
    lamports: u64,
    split_stake: &Pubkey,
    base: &Pubkey,
    seed: &str,
) -> (instructions: Vec<Instruction>)
    ensures
        instruction_views(instructions@) == split_with_seed_instructions(
            stake@,
            authority@,
            lamports,
            split_stake@,
            base@,
            seed@,
        ),
{
    let instructions = stake_instruction::split_with_seed(&SdkPubkey::new_from_array(stake.0), &SdkPubkey::new_from_array(authority.0), lamports, &SdkPubkey::new_from_array(split_stake.0), &SdkPubkey::new_from_array(base.0), seed);
    instructions.into_iter().map(|ix| Instruction {
        program_id: Pubkey(ix.program_id.to_bytes()),
        accounts: ix.accounts.iter().map(|a| AccountMeta { pubkey: Pubkey(a.pubkey.to_bytes()), is_signer: a.is_signer, is_writable: a.is_writable }).collect(),
        data: ix.data,
    }).collect()
}

/// The instruction that hands one role over a stake account to a new key.
///
/// Calls `solana_stake_program::stake_instruction::authorize`. The contract
/// names what it returns and claims nothing else of it.
#[verifier::external_body]
pub(crate) fn authorize(
    stake: &Pubkey,
    authority: &Pubkey,
    new_authority: &Pubkey,
    role: StakeAuthorize,
) -> (instruction: Instruction)
    ensures
        instruction@ == authorize_instruction(stake@, authority@, new_authority@, role),
{
    let role = match role {
        StakeAuthorize::Staker => SdkStakeAuthorize::Staker,
        StakeAuthorize::Withdrawer => SdkStakeAuthorize::Withdrawer,
    };
    let ix = stake_instruction::authorize(&SdkPubkey::new_from_array(stake.0), &SdkPubkey::new_from_array(authority.0), &SdkPubkey::new_from_array(new_authority.0), role);
    Instruction {
        program_id: Pubkey(ix.program_id.to_bytes()),
        accounts: ix.accounts.iter().map(|a| AccountMeta { pubkey: Pubkey(a.pubkey.to_bytes()), is_signer: a.is_signer, is_writable: a.is_writable }).collect(),
        data: ix.data,
    }
}

} // verus!
