use vstd::prelude::*;
use vstd::string::StringSliceAdditionalSpecFns;
use crate::hash::{collide, hashv, sha256};
use crate::instruction::{Instruction, InstructionView, instruction_views};
use crate::message::{Message, MessageView};
use crate::pubkey::{Pubkey, lemma_pubkey_ext_equal};
use crate::seed::{
    decimal_digits, index_seed, lemma_seed_bytes_injective, lemma_seed_bytes_len, seed_bytes,
};
use crate::stake_program::{
    Authorized, Lockup, StakeAuthorize, authorize, authorize_instruction, create_account_with_seed,
    create_account_with_seed_instructions, split_with_seed, split_with_seed_instructions,
    stake_program_id,
};

verus! {

/// The longest seed, in bytes, that an address may be derived from.
pub const MAX_SEED_LEN: usize = 32;

/// Why an address could not be derived.
#[derive(Debug, PartialEq, Eq)]
pub enum PubkeyError {
    /// The seed is longer than `MAX_SEED_LEN` bytes.
    MaxSeedLengthExceeded,
}

/// The address derived from a base key, a seed and the id of the program that
/// is to own the account: the digest of the three joined end to end.
pub open spec fn seeded_address(base: Seq<u8>, seed: Seq<u8>, program_id: Seq<u8>) -> Seq<u8> {
    sha256(base + seed + program_id)
}

/// The address of the stake account at `index` under `base`: seeded by the
/// decimal numeral of the index and owned by the stake program.
pub open spec fn stake_account_address(base: Seq<u8>, index: nat) -> Seq<u8> {
    seeded_address(base, seed_bytes(index), stake_program_id())
}

/// The two instructions that hand a stake account over: first the staker's
/// role, then the withdrawer's.
pub open spec fn authorize_instructions(
    stake: Seq<u8>,
    staker: Seq<u8>,
    withdrawer: Seq<u8>,
    new_staker: Seq<u8>,
    new_withdrawer: Seq<u8>,
) -> Seq<InstructionView> {
    seq![
        authorize_instruction(stake, staker, new_staker, StakeAuthorize::Staker),
        authorize_instruction(stake, withdrawer, new_withdrawer, StakeAuthorize::Withdrawer),
    ]
}

/// The message that creates the stake account at index 0 under `base`, funded
/// by `sender` with `lamports`, with the two authorities and no lockup.
pub open spec fn creation_message(
    fee_payer: Seq<u8>,
    sender: Seq<u8>,
    base: Seq<u8>,
    lamports: u64,
    staker: Seq<u8>,
    withdrawer: Seq<u8>,
) -> MessageView {
    MessageView {
        fee_payer,
        instructions: create_account_with_seed_instructions(
            sender,
            stake_account_address(base, 0),
            base,
            decimal_digits(0),
            staker,
            withdrawer,
            0,
            0,
            Seq::new(32, |i: int| 0u8),
            lamports,
        ),
    }
}

/// The message that hands the stake account at `index` under `base` over to
/// the new authorities.
pub open spec fn rotation_message(
    fee_payer: Seq<u8>,
    base: Seq<u8>,
    staker: Seq<u8>,
    withdrawer: Seq<u8>,
    new_staker: Seq<u8>,
    new_withdrawer: Seq<u8>,
    index: nat,
) -> MessageView {
    MessageView {
        fee_payer,
        instructions: authorize_instructions(
            stake_account_address(base, index),
            staker,
            withdrawer,
            new_staker,
            new_withdrawer,
        ),
    }
}

/// The message that moves `lamports` from the stake account `source` to the
/// account at `index` under `new_base`: the split, signed by the old staker,
/// and then the handing over of the new account. The split names the base key
/// and the seed that the new account's address is derived from, so that the
/// ledger, which derives the address again, finds the same one.
pub open spec fn migration_message(
    source: Seq<u8>,
    new_base: Seq<u8>,
    index: nat,
    fee_payer: Seq<u8>,
    staker: Seq<u8>,
    withdrawer: Seq<u8>,
    new_staker: Seq<u8>,
    new_withdrawer: Seq<u8>,
    lamports: u64,
) -> MessageView {
    let destination = stake_account_address(new_base, index);
    MessageView {
        fee_payer,
        instructions: split_with_seed_instructions(
            source,
            staker,
            lamports,
            destination,
            new_base,
            decimal_digits(index),
        ) + authorize_instructions(destination, staker, withdrawer, new_staker, new_withdrawer),
    }
}

/// What is hashed for the stake account at `index` under `base`: the base
/// key, the seed and the id of the stake program, joined end to end.
pub open spec fn derivation_input(base: Seq<u8>, index: nat) -> Seq<u8> {
    base + seed_bytes(index) + stake_program_id()
}

/// Derivation is a function of the base key and the index: two addresses
/// derived from equal keys and equal indices are the same key.
pub proof fn lemma_derivation_deterministic(
    base: Pubkey,
    index: nat,
    first: Pubkey,
    second: Pubkey,
)
    requires
        first@ == stake_account_address(base@, index),
        second@ == stake_account_address(base@, index),
    ensures
        first == second,
{
    lemma_pubkey_ext_equal(first, second);
}

/// Under one base key, different indices are hashed from different inputs.
pub proof fn lemma_derivation_inputs_distinct(base: Seq<u8>, i: nat, j: nat)
    requires
        i != j,
    ensures
        derivation_input(base, i) != derivation_input(base, j),
{
    let first = derivation_input(base, i);
    let second = derivation_input(base, j);
    if first == second {
        let n = seed_bytes(i).len();
        assert(first.len() == base.len() + seed_bytes(i).len() + stake_program_id().len());
        assert(second.len() == base.len() + seed_bytes(j).len() + stake_program_id().len());
        assert(seed_bytes(j).len() == n);
        assert forall|k: int| 0 <= k < n implies seed_bytes(i)[k] == seed_bytes(j)[k] by {
            assert(first[base.len() + k] == seed_bytes(i)[k]);
            assert(second[base.len() + k] == seed_bytes(j)[k]);
        }
        assert(seed_bytes(i) =~= seed_bytes(j));
        lemma_seed_bytes_injective(i, j);
    }
}

/// Under one base key, the stake accounts at different indices have different
/// addresses, unless what is hashed for the two is a collision of the digest.
pub proof fn lemma_addresses_distinct(base: Seq<u8>, i: nat, j: nat)
    requires
        i != j,
        !collide(derivation_input(base, i), derivation_input(base, j)),
    ensures
        stake_account_address(base, i) != stake_account_address(base, j),
{
    lemma_derivation_inputs_distinct(base, i, j);
}

/// A message that hands a stake account over is paid for by the fee payer and
/// holds two instructions for the account at its index: the one for the
/// staker's role, then the one for the withdrawer's.
pub proof fn lemma_rotation_message_shape(
    fee_payer: Seq<u8>,
    base: Seq<u8>,
    staker: Seq<u8>,
    withdrawer: Seq<u8>,
    new_staker: Seq<u8>,
    new_withdrawer: Seq<u8>,
    index: nat,
)
    ensures
        ({
            let message = rotation_message(
                fee_payer,
                base,
                staker,
                withdrawer,
                new_staker,
                new_withdrawer,
                index,
            );
            let stake = stake_account_address(base, index);
            &&& message.fee_payer == fee_payer
            &&& message.instructions.len() == 2
            &&& message.instructions[0] == authorize_instruction(
                stake,
                staker,
                new_staker,
                StakeAuthorize::Staker,
            )
            &&& message.instructions[1] == authorize_instruction(
                stake,
                withdrawer,
                new_withdrawer,
                StakeAuthorize::Withdrawer,
            )
        }),
{
}

/// A message that moves a stake account is paid for by the fee payer and
/// holds, in this order, what splits the lamports off the source into the
/// account at its index under the new base key, naming that base key and the
/// numeral of the index as its seed, the instruction that hands the staker's
/// role over that account to the new staker, and the one that hands the
/// withdrawer's role to the new withdrawer; nothing else.
pub proof fn lemma_migration_message_shape(
    source: Seq<u8>,
    new_base: Seq<u8>,
    index: nat,
    fee_payer: Seq<u8>,
    staker: Seq<u8>,
    withdrawer: Seq<u8>,
    new_staker: Seq<u8>,
    new_withdrawer: Seq<u8>,
    lamports: u64,
)
    ensures
        ({
            let message = migration_message(
                source,
                new_base,
                index,
                fee_payer,
                staker,
                withdrawer,
                new_staker,
                new_withdrawer,
                lamports,
            );
            let destination = stake_account_address(new_base, index);
            let split = split_with_seed_instructions(
                source,
                staker,
                lamports,
                destination,
                new_base,
                decimal_digits(index),
            );
            &&& message.fee_payer == fee_payer
            &&& message.instructions.len() == split.len() + 2
            &&& message.instructions.take(split.len() as int) == split
            &&& message.instructions[split.len() as int] == authorize_instruction(
                destination,
                staker,
                new_staker,
                StakeAuthorize::Staker,
            )
            &&& message.instructions[split.len() as int + 1] == authorize_instruction(
                destination,
                withdrawer,
                new_withdrawer,
                StakeAuthorize::Withdrawer,
            )
        }),
{
}

/// Derives the address of the account that `program_id` owns under `base` and
/// `seed`. The seed is measured in bytes of its UTF-8 encoding.
pub fn create_with_seed(base: &Pubkey, seed: &str, program_id: &Pubkey) -> (result: Result<
    Pubkey,
    PubkeyError,
>)
    ensures
        result is Err <==> seed.spec_bytes().len() > MAX_SEED_LEN,
        result matches Err(e) ==> e == PubkeyError::MaxSeedLengthExceeded,
        result matches Ok(address) ==> address@ == seeded_address(
            base@,
            seed.spec_bytes(),
            program_id@,
        ),
{
    let seed_bytes = seed.as_bytes();
    if seed_bytes.len() > MAX_SEED_LEN {
        return Err(PubkeyError::MaxSeedLengthExceeded);
    }
    let digest = hashv(base.as_bytes(), seed_bytes, program_id.as_bytes());
    Ok(Pubkey::new_from_array(digest))
}

/// The address of the stake account at index `i` under `base_pubkey`.
pub fn derive_stake_account_address(base_pubkey: &Pubkey, i: usize) -> (address: Pubkey)
    ensures
        address@ == stake_account_address(base_pubkey@, i as nat),
{
    let seed = index_seed(i);
    proof {
        lemma_seed_bytes_len(i as nat);
    }
    match create_with_seed(base_pubkey, seed.as_str(), &crate::stake_program::id()) {
        Ok(address) => address,
        Err(_) => vstd::pervasive::unreached(),
    }
}

/// The addresses of the first `num_accounts` stake accounts under
/// `base_pubkey`, in the order of their indices.
pub fn derive_stake_account_addresses(base_pubkey: &Pubkey, num_accounts: usize) -> (addresses:
    Vec<Pubkey>)
    ensures
        addresses@.len() == num_accounts,
        forall|i: int|
            0 <= i < num_accounts ==> (#[trigger] addresses@[i])@ == stake_account_address(
                base_pubkey@,
                i as nat,
            ),
{
    let mut addresses: Vec<Pubkey> = Vec::new();
    let mut i: usize = 0;
    while i < num_accounts
        invariant
            i <= num_accounts,
            addresses@.len() == i,
            forall|k: int|
                0 <= k < i ==> (#[trigger] addresses@[k])@ == stake_account_address(
                    base_pubkey@,
                    k as nat,
                ),
        decreases num_accounts - i,
    {
        let address = derive_stake_account_address(base_pubkey, i);
        addresses.push(address);
        i = i + 1;
    }
    addresses
}

/// The message that creates the stake account at index 0 under `base_pubkey`
/// and funds it with `lamports` from `sender_pubkey`.
pub fn new_stake_account(
    fee_payer_pubkey: &Pubkey,
    sender_pubkey: &Pubkey,
    base_pubkey: &Pubkey,
    lamports: u64,
    stake_authority_pubkey: &Pubkey,
    withdraw_authority_pubkey: &Pubkey,
) -> (message: Message)
    ensures
        message@ == creation_message(
            fee_payer_pubkey@,
            sender_pubkey@,
            base_pubkey@,
            lamports,
            stake_authority_pubkey@,
            withdraw_authority_pubkey@,
        ),
{
    let seed: usize = 0;
    let stake_account_address = derive_stake_account_address(base_pubkey, seed);
    let authorized = Authorized {
        staker: *stake_authority_pubkey,
        withdrawer: *withdraw_authority_pubkey,
    };
    let seed_string = index_seed(seed);
    let instructions = create_account_with_seed(
        sender_pubkey,
        &stake_account_address,
        base_pubkey,
        seed_string.as_str(),
        &authorized,
        &Lockup::default(),
        lamports,
    );
    Message::new_with_payer(instructions, fee_payer_pubkey)
}

/// The two instructions that hand the stake account at
/// `stake_account_address` over to the new authorities: the staker's role
/// first, then the withdrawer's.
pub fn authorize_stake_accounts_instructions(
    stake_account_address: &Pubkey,
    stake_authority_pubkey: &Pubkey,
    withdraw_authority_pubkey: &Pubkey,
    new_stake_authority_pubkey: &Pubkey,
    new_withdraw_authority_pubkey: &Pubkey,
) -> (instructions: Vec<Instruction>)
    ensures
        instruction_views(instructions@) == authorize_instructions(
            stake_account_address@,
            stake_authority_pubkey@,
            withdraw_authority_pubkey@,
            new_stake_authority_pubkey@,
            new_withdraw_authority_pubkey@,
        ),
{
    let instruction0 = authorize(
        stake_account_address,
        stake_authority_pubkey,
        new_stake_authority_pubkey,
        StakeAuthorize::Staker,
    );
    let instruction1 = authorize(
        stake_account_address,
        withdraw_authority_pubkey,
        new_withdraw_authority_pubkey,
        StakeAuthorize::Withdrawer,
    );
    let mut instructions: Vec<Instruction> = Vec::new();
    instructions.push(instruction0);
    instructions.push(instruction1);
    assert(instruction_views(instructions@) =~= authorize_instructions(
        stake_account_address@,
        stake_authority_pubkey@,
        withdraw_authority_pubkey@,
        new_stake_authority_pubkey@,
        new_withdraw_authority_pubkey@,
    ));
    instructions
}

/// The message that moves `lamports` from the stake account at
/// `stake_account_address` to the account at index `i` under
/// `new_base_pubkey` and hands that account over to the new authorities.
pub fn move_stake_account(
    stake_account_address: &Pubkey,
    new_base_pubkey: &Pubkey,
    i: usize,
    fee_payer_pubkey: &Pubkey,
    stake_authority_pubkey: &Pubkey,
    withdraw_authority_pubkey: &Pubkey,
    new_stake_authority_pubkey: &Pubkey,
    new_withdraw_authority_pubkey: &Pubkey,
    lamports: u64,
) -> (message: Message)
    ensures
        message@ == migration_message(
            stake_account_address@,
            new_base_pubkey@,
            i as nat,
            fee_payer_pubkey@,
            stake_authority_pubkey@,
            withdraw_authority_pubkey@,
            new_stake_authority_pubkey@,
            new_withdraw_authority_pubkey@,
            lamports,
        ),
{
    let new_stake_account_address = derive_stake_account_address(new_base_pubkey, i);
    let seed_string = index_seed(i);
    let mut instructions = split_with_seed(
        stake_account_address,
        stake_authority_pubkey,
        lamports,
        &new_stake_account_address,
        new_base_pubkey,
        seed_string.as_str(),
    );
    let mut authorize_instructions = authorize_stake_accounts_instructions(
        &new_stake_account_address,
        stake_authority_pubkey,
        withdraw_authority_pubkey,
        new_stake_authority_pubkey,
        new_withdraw_authority_pubkey,
    );
    let ghost split = instructions@;
    let ghost handover = authorize_instructions@;
    instructions.append(&mut authorize_instructions);
    assert(instruction_views(instructions@) =~= instruction_views(split) + instruction_views(
        handover,
    ));
    Message::new_with_payer(instructions, fee_payer_pubkey)
}

/// One message for each of the first `num_accounts` stake accounts under
/// `base_pubkey`, in the order of their indices: each hands its account over
/// to the new authorities.
pub fn authorize_stake_accounts(
    fee_payer_pubkey: &Pubkey,
    base_pubkey: &Pubkey,
    stake_authority_pubkey: &Pubkey,
    withdraw_authority_pubkey: &Pubkey,
    new_stake_authority_pubkey: &Pubkey,
    new_withdraw_authority_pubkey: &Pubkey,
    num_accounts: usize,
) -> (messages: Vec<Message>)
    ensures
        messages@.len() == num_accounts,
        forall|i: int|
            0 <= i < num_accounts ==> (#[trigger] messages@[i])@ == rotation_message(
                fee_payer_pubkey@,
                base_pubkey@,
                stake_authority_pubkey@,
                withdraw_authority_pubkey@,
                new_stake_authority_pubkey@,
                new_withdraw_authority_pubkey@,
                i as nat,
            ),
{
    let stake_account_addresses = derive_stake_account_addresses(base_pubkey, num_accounts);
    let mut messages: Vec<Message> = Vec::new();
    let mut i: usize = 0;
    while i < num_accounts
        invariant
            i <= num_accounts,
            stake_account_addresses@.len() == num_accounts,
            forall|k: int|
                0 <= k < num_accounts ==> (#[trigger] stake_account_addresses@[k])@
                    == stake_account_address(base_pubkey@, k as nat),
            messages@.len() == i,
            forall|k: int|
                0 <= k < i ==> (#[trigger] messages@[k])@ == rotation_message(
                    fee_payer_pubkey@,
                    base_pubkey@,
                    stake_authority_pubkey@,
                    withdraw_authority_pubkey@,
                    new_stake_authority_pubkey@,
                    new_withdraw_authority_pubkey@,
                    k as nat,
                ),
        decreases num_accounts - i,
    {
        let instructions = authorize_stake_accounts_instructions(
            &stake_account_addresses[i],
            stake_authority_pubkey,
            withdraw_authority_pubkey,
            new_stake_authority_pubkey,
            new_withdraw_authority_pubkey,
        );
        let message = Message::new_with_payer(instructions, fee_payer_pubkey);
        messages.push(message);
        i = i + 1;
    }
    messages
}

/// One message for each entry of `balances`, in their order: the message at
/// `i` moves the lamports of entry `i` from its stake account to the account
/// at index `i` under `new_base_pubkey` and hands that account over.
pub fn move_stake_accounts(
    fee_payer_pubkey: &Pubkey,
    new_base_pubkey: &Pubkey,
    stake_authority_pubkey: &Pubkey,
    withdraw_authority_pubkey: &Pubkey,
    new_stake_authority_pubkey: &Pubkey,
    new_withdraw_authority_pubkey: &Pubkey,
    balances: &[(Pubkey, u64)],
) -> (messages: Vec<Message>)
    ensures
        messages@.len() == balances@.len(),
        forall|i: int|
            0 <= i < balances@.len() ==> (#[trigger] messages@[i])@ == migration_message(
                balances@[i].0@,
                new_base_pubkey@,
                i as nat,
                fee_payer_pubkey@,
                stake_authority_pubkey@,
                withdraw_authority_pubkey@,
                new_stake_authority_pubkey@,
                new_withdraw_authority_pubkey@,
                balances@[i].1,
            ),
{
    let mut messages: Vec<Message> = Vec::new();
    let mut i: usize = 0;
    while i < balances.len()
        invariant
            i <= balances@.len(),
            messages@.len() == i,
            forall|k: int|
                0 <= k < i ==> (#[trigger] messages@[k])@ == migration_message(
                    balances@[k].0@,
                    new_base_pubkey@,
                    k as nat,
                    fee_payer_pubkey@,
                    stake_authority_pubkey@,
                    withdraw_authority_pubkey@,
                    new_stake_authority_pubkey@,
                    new_withdraw_authority_pubkey@,
                    balances@[k].1,
                ),
        decreases balances@.len() - i,
    {
        let message = move_stake_account(
            &balances[i].0,
            new_base_pubkey,
            i,
            fee_payer_pubkey,
            stake_authority_pubkey,
            withdraw_authority_pubkey,
            new_stake_authority_pubkey,
            new_withdraw_authority_pubkey,
            balances[i].1,
        );
        messages.push(message);
        i = i + 1;
    }
    messages
}

} // verus!
