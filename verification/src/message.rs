use vstd::prelude::*;
use crate::instruction::{Instruction, InstructionView, instruction_views};
use crate::pubkey::Pubkey;
use solana_sdk::instruction::AccountMeta as SdkAccountMeta;
use solana_sdk::instruction::Instruction as SdkInstruction;
use solana_sdk::message::Message as SdkMessage;
use solana_sdk::pubkey::Pubkey as SdkPubkey;

verus! {

/// A batch of instructions that the ledger applies in their order and as a
/// whole, with the account that pays for it.
#[derive(Clone, Debug, PartialEq, Eq)]
pub struct Message {
    /// The account that pays the fee.
    pub fee_payer: Pubkey,
    /// The instructions, in the order in which they are applied.
    pub instructions: Vec<Instruction>,
}

/// What a `Message` holds, as sequences.
pub struct MessageView {
    pub fee_payer: Seq<u8>,
    pub instructions: Seq<InstructionView>,
}

impl View for Message {
    type V = MessageView;

    open spec fn view(&self) -> MessageView {
        MessageView {
            fee_payer: self.fee_payer@,
            instructions: instruction_views(self.instructions@),
        }
    }
}

/// The bytes of the message that carries `instructions` in their order and is
/// paid for by `payer`, in the form in which it is signed and sent.
pub uninterp spec fn wire_bytes(instructions: Seq<InstructionView>, payer: Seq<u8>) -> Seq<u8>;

/// How many keys a list of instructions mentions, each as often as it occurs:
/// for every instruction its program and each of its accounts.
pub open spec fn key_mentions(instructions: Seq<InstructionView>) -> nat
    decreases instructions.len(),
{
    if instructions.len() == 0 {
        0
    } else {
        key_mentions(instructions.drop_last()) + instructions.last().accounts.len() + 1
    }
}

/// The most keys that the instructions of a message may mention: with the
/// payer they are at most 255, so that every count and every position in the
/// message fits in one byte.
pub const MAX_KEY_MENTIONS: usize = 254;

/// The longest data of one instruction in a message: its length is written
/// in sixteen bits.
pub const MAX_INSTRUCTION_DATA_LEN: usize = 65535;

/// Whether a list of instructions can be put on the wire as one message.
pub open spec fn fits_wire(instructions: Seq<InstructionView>) -> bool {
    &&& key_mentions(instructions) <= MAX_KEY_MENTIONS
    &&& forall|i: int|
        0 <= i < instructions.len() ==> (#[trigger] instructions[i]).data.len()
            <= MAX_INSTRUCTION_DATA_LEN
}

/// Puts instructions and their payer on the wire.
///
/// Calls `solana_sdk::message::Message::new_with_payer` with the payer
/// present, and `serialize` on the message that it returns. The first counts
/// keys in single bytes and the second refuses a list longer than sixteen bits
/// can say, which is what `requires` keeps away. The contract names the bytes
/// and claims nothing else of them.
#[verifier::external_body]
fn compile(instructions: &Vec<Instruction>, payer: &Pubkey) -> (bytes: Vec<u8>)
    requires
        fits_wire(instruction_views(instructions@)),
    ensures
        bytes@ == wire_bytes(instruction_views(instructions@), payer@),
{
    let instructions: Vec<SdkInstruction> = instructions.iter().map(|ix| SdkInstruction {
        program_id: SdkPubkey::new_from_array(ix.program_id.0),
        accounts: ix.accounts.iter().map(|a| SdkAccountMeta {
            pubkey: SdkPubkey::new_from_array(a.pubkey.0),
            is_signer: a.is_signer,
            is_writable: a.is_writable,
        }).collect(),
        data: ix.data.clone(),
    }).collect();
    SdkMessage::new_with_payer(&instructions, Some(&SdkPubkey::new_from_array(payer.0))).serialize()
}

/// A prefix of a list of instructions mentions no more keys than the list.
pub proof fn lemma_key_mentions_prefix(instructions: Seq<InstructionView>, n: int)
    requires
        0 <= n <= instructions.len(),
    ensures
        key_mentions(instructions.take(n)) <= key_mentions(instructions),
    decreases instructions.len(),
{
    if n == instructions.len() {
        assert(instructions.take(n) =~= instructions);
    } else {
        lemma_key_mentions_prefix(instructions.drop_last(), n);
        assert(instructions.drop_last().take(n) =~= instructions.take(n));
    }
}

impl Message {
    /// The message that carries `instructions` in their order and is paid for
    /// by `payer`.
    pub fn new_with_payer(instructions: Vec<Instruction>, payer: &Pubkey) -> (message: Message)
        ensures
            message.fee_payer == *payer,
            message.instructions == instructions,
            message@.fee_payer == payer@,
            message@.instructions == instruction_views(instructions@),
    {
        Message { fee_payer: *payer, instructions }
    }

    /// The message in the form in which it is signed and sent, or `None` where
    /// its instructions mention more than `MAX_KEY_MENTIONS` keys or one of
    /// them holds more than `MAX_INSTRUCTION_DATA_LEN` bytes of data.
    pub fn serialize(&self) -> (result: Option<Vec<u8>>)
        ensures
            result is Some <==> fits_wire(self@.instructions),
            result matches Some(bytes) ==> bytes@ == wire_bytes(
                self@.instructions,
                self@.fee_payer,
            ),
    {
        let ghost views = self@.instructions;
        let mut mentions: usize = 0;
        let mut i: usize = 0;
        while i < self.instructions.len()
            invariant
                views == instruction_views(self.instructions@),
                0 <= i <= self.instructions@.len(),
                mentions == key_mentions(views.take(i as int)),
                mentions <= MAX_KEY_MENTIONS,
                forall|k: int| 0 <= k < i ==> (#[trigger] views[k]).data.len() <= MAX_INSTRUCTION_DATA_LEN,
            decreases self.instructions@.len() - i,
        {
            let instruction = &self.instructions[i];
            let accounts = instruction.accounts.len();
            proof {
                assert(views[i as int] == instruction@);
                assert(views.take(i + 1).drop_last() =~= views.take(i as int));
                assert(views.take(i + 1).last() == views[i as int]);
                lemma_key_mentions_prefix(views, i + 1);
            }
            if accounts >= MAX_KEY_MENTIONS || mentions > MAX_KEY_MENTIONS - 1 - accounts {
                return None;
            }
            if instruction.data.len() > MAX_INSTRUCTION_DATA_LEN {
                return None;
            }
            mentions = mentions + accounts + 1;
            i = i + 1;
        }
        proof {
            assert(views.take(i as int) =~= views);
        }
        Some(compile(&self.instructions, &self.fee_payer))
    }
}

} // verus!
