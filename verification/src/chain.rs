//! The calls into the Solana SDK, base58, bincode and the random source that the
//! bundle logic makes, each behind a contract that states what the callee's
//! source shows of it.

use vstd::prelude::*;
use rand::seq::SliceRandom;
use solana_sdk::instruction::{AccountMeta, Instruction};
use solana_sdk::message::{v0, CompileError, VersionedMessage};
use solana_sdk::signature::{Keypair, Signature};
use solana_sdk::signer::SignerError;
use solana_sdk::pubkey::Pubkey;
use solana_sdk::transaction::VersionedTransaction;

verus! {

#[verifier::external_type_specification]
#[verifier::external_body]
pub struct ExKeypair(Keypair);

#[verifier::external_type_specification]
#[verifier::external_body]
pub struct ExCompileError(CompileError);

#[verifier::external_type_specification]
#[verifier::external_body]
pub struct ExSignerError(SignerError);

#[verifier::external_type_specification]
#[verifier::external_body]
pub struct ExBincodeErrorKind(bincode::ErrorKind);

/// An account that an instruction touches, with its role.
pub struct AccountRef {
    pub key: [u8; 32],
    pub is_signer: bool,
    pub is_writable: bool,
}

/// An instruction of a transaction, as plain values.
pub struct PlainInstruction {
    pub program_id: [u8; 32],
    pub accounts: Vec<AccountRef>,
    pub data: Vec<u8>,
}

/// The public key that `Pubkey::from_str` decodes from a base58 text, if any.
pub uninterp spec fn parsed_pubkey(text: Seq<char>) -> Option<Seq<u8>>;

/// The base58 text of a 32-byte public key, as `Pubkey`'s `Display` writes it.
pub uninterp spec fn pubkey_base58(key: Seq<u8>) -> Seq<char>;

/// The base58 text of a byte string, as `bs58::encode(..).into_string()` writes it.
pub uninterp spec fn base58_text(bytes: Seq<u8>) -> Seq<char>;

/// `Pubkey::from_str`: the 32 bytes that a base58 text decodes to. The crate
/// rejects texts longer than 44 bytes before decoding; which shorter texts decode
/// is left to the name `parsed_pubkey`.
#[verifier::external_body]
pub fn parse_pubkey(text: &str) -> (key: Option<[u8; 32]>)
    ensures
        match key {
            Some(k) => parsed_pubkey(text@) == Some(k@),
            None => parsed_pubkey(text@) is None,
        },
        text@.len() > 44 ==> key is None,
{
    text.parse::<Pubkey>().ok().map(|k| k.to_bytes())
}

/// `Pubkey`'s `Display`: the base58 text of a key.
#[verifier::external_body]
pub fn pubkey_text(key: [u8; 32]) -> (text: String)
    ensures
        text@ == pubkey_base58(key@),
{
    Pubkey::from(key).to_string()
}

/// `Signature::try_from(&[u8])`: succeeds exactly on 64 bytes, which become the
/// signature unchanged.
#[verifier::external_body]
pub fn signature_from_bytes(bytes: &[u8]) -> (sig: Option<[u8; 64]>)
    ensures
        sig is Some <==> bytes@.len() == 64,
        sig matches Some(s) ==> s@ == bytes@,
{
    Signature::try_from(bytes).ok().map(|s| <[u8; 64]>::from(s))
}

/// Whether `Keypair::from_bytes` accepts these bytes as a keypair: exactly 64
/// bytes whose public half is a valid curve point equal to the key derived from
/// the secret half.
pub uninterp spec fn keypair_bytes_accepted(bytes: Seq<u8>) -> bool;

/// `Keypair::from_bytes`: a keypair from its 64-byte encoding, secret half then
/// public half. The crate accepts exactly 64 bytes whose halves agree; which
/// 64-byte strings agree is left to the name `keypair_bytes_accepted`.
#[verifier::external_body]
#[allow(deprecated)]
pub fn keypair_from_bytes(bytes: &[u8]) -> (kp: Option<Keypair>)
    ensures
        kp is Some <==> keypair_bytes_accepted(bytes@),
        kp is Some ==> bytes@.len() == 64,
{
    Keypair::from_bytes(bytes).ok()
}

/// The bytes that `serde_json::from_str::<Vec<u8>>` reads from a text, if it
/// reads a JSON array of integers that each fit a byte.
pub uninterp spec fn json_byte_array(text: Seq<char>) -> Option<Seq<u8>>;

/// `serde_json::from_str::<Vec<u8>>`: the bytes of a JSON array text.
#[verifier::external_body]
pub fn parse_json_byte_array(text: &str) -> (bytes: Option<Vec<u8>>)
    ensures
        match bytes {
            Some(b) => json_byte_array(text@) == Some(b@),
            None => json_byte_array(text@) is None,
        },
{
    serde_json::from_str::<Vec<u8>>(text).ok()
}

/// `SliceRandom::choose` with the thread's generator: `None` on an empty list,
/// otherwise one of its entries, picked at random.
#[verifier::external_body]
pub fn choose_random(accounts: &Vec<[u8; 32]>) -> (picked: Option<[u8; 32]>)
    ensures
        picked is None <==> accounts@.len() == 0,
        picked matches Some(a) ==> accounts@.contains(a),
{
    accounts.choose(&mut rand::thread_rng()).copied()
}

/// The system program's address: 32 zero bytes.
pub open spec fn system_program_id() -> Seq<u8> {
    Seq::new(32, |i: int| 0u8)
}

/// The little-endian bytes of a `u64`.
pub open spec fn le_bytes(n: u64) -> Seq<u8> {
    Seq::new(8, |i: int| ((n as int / vstd::arithmetic::power2::pow2((8 * i) as nat) as int) % 256) as u8)
}

/// The instruction data of a system transfer: the variant index 2 as a
/// little-endian `u32`, then the lamports as a little-endian `u64`.
pub open spec fn transfer_data(lamports: u64) -> Seq<u8> {
    seq![2u8, 0u8, 0u8, 0u8] + le_bytes(lamports)
}

/// `system_instruction::transfer`: the system program moves `lamports` from `from`,
/// which signs and is written, to `to`, which is written.
#[verifier::external_body]
#[allow(deprecated)]
pub fn system_transfer(from: [u8; 32], to: [u8; 32], lamports: u64) -> (ix: PlainInstruction)
    ensures
        ix.program_id@ == system_program_id(),
        ix.accounts@.len() == 2,
        ix.accounts@[0] == (AccountRef { key: from, is_signer: true, is_writable: true }),
        ix.accounts@[1] == (AccountRef { key: to, is_signer: false, is_writable: true }),
        ix.data@ == transfer_data(lamports),
{
    let ix = solana_sdk::system_instruction::transfer(&Pubkey::from(from), &Pubkey::from(to), lamports);
    let accounts = ix.accounts.iter().map(|m| AccountRef { key: m.pubkey.to_bytes(), is_signer: m.is_signer, is_writable: m.is_writable }).collect();
    PlainInstruction { program_id: ix.program_id.to_bytes(), accounts, data: ix.data }
}

/// An instruction as plain values: program id, accounts as (key, signs, written),
/// and data.
pub open spec fn instruction_view(ix: PlainInstruction) -> (Seq<u8>, Seq<(Seq<u8>, bool, bool)>, Seq<u8>) {
    (
        ix.program_id@,
        ix.accounts@.map_values(|a: AccountRef| (a.key@, a.is_signer, a.is_writable)),
        ix.data@,
    )
}

/// The instructions as plain values.
pub open spec fn instructions_view(ixs: Seq<PlainInstruction>) -> Seq<(Seq<u8>, Seq<(Seq<u8>, bool, bool)>, Seq<u8>)> {
    ixs.map_values(|ix: PlainInstruction| instruction_view(ix))
}

/// An upper bound on the distinct keys a message over these instructions names:
/// the payer, and each instruction's program and accounts.
pub open spec fn key_budget(ixs: Seq<(Seq<u8>, Seq<(Seq<u8>, bool, bool)>, Seq<u8>)>) -> int
    decreases ixs.len(),
{
    if ixs.len() == 0 {
        1
    } else {
        key_budget(ixs.drop_last()) + ixs.last().1.len() + 1
    }
}

/// No account but the payer signs.
pub open spec fn only_payer_signs(payer: Seq<u8>, ixs: Seq<(Seq<u8>, Seq<(Seq<u8>, bool, bool)>, Seq<u8>)>) -> bool {
    forall|i: int, j: int|
        0 <= i < ixs.len() && 0 <= j < ixs[i].1.len() && (#[trigger] ixs[i].1[j]).1 ==> ixs[i].1[j].0
            == payer
}

/// Serialized version-0 message bytes that name exactly one required signer,
/// `signer`, as their first account key: the version byte, a header whose signer
/// count is 1, a one-byte key count of at least 1, then the signer's key.
pub open spec fn single_signer_message(message: Seq<u8>, signer: Seq<u8>) -> bool {
    &&& message.len() >= 37
    &&& message[0] == 0x80u8
    &&& message[1] == 1u8
    &&& 1 <= message[4] < 128
    &&& message.subrange(5, 37) == signer
}

/// The serialized version-0 message that `v0::Message::try_compile` builds for a
/// payer, instructions and a recent blockhash, if it compiles.
pub uninterp spec fn compiled_v0_message(
    payer: Seq<u8>,
    instructions: Seq<(Seq<u8>, Seq<(Seq<u8>, bool, bool)>, Seq<u8>)>,
    blockhash: Seq<u8>,
) -> Option<Seq<u8>>;

/// Bytes that `compile_v0_message` can give.
pub open spec fn is_compiled_message(message: Seq<u8>) -> bool {
    exists|payer: Seq<u8>, ixs: Seq<(Seq<u8>, Seq<(Seq<u8>, bool, bool)>, Seq<u8>)>, blockhash: Seq<u8>|
        compiled_v0_message(payer, ixs, blockhash) == Some(message)
}

/// The signatures that `VersionedTransaction::try_new` puts on a serialized
/// message with one keypair (given by its 64 bytes), if it signs.
pub uninterp spec fn message_signatures(message: Seq<u8>, keypair: Seq<u8>) -> Option<Seq<Seq<u8>>>;

/// The bytes `bincode::serialize` gives for a transaction of these signatures over
/// this serialized message, if it serializes.
pub uninterp spec fn transaction_bytes(signatures: Seq<Seq<u8>>, message: Seq<u8>) -> Option<Seq<u8>>;

/// `v0::Message::try_compile` with no lookup tables, wrapped as a versioned message
/// and given as its serialized bytes. The crate compiles whenever the message
/// needs fewer than 256 account keys; the payer comes first and signs, and when
/// no other account signs it is the only required signer. Lengths that the
/// serializer's compact lengths cannot hold are excluded.
#[verifier::external_body]
pub fn compile_v0_message(payer: [u8; 32], instructions: &Vec<PlainInstruction>, blockhash: [u8; 32]) -> (msg: Result<Vec<u8>, CompileError>)
    requires
        instructions@.len() <= 65535,
        forall|i: int| 0 <= i < instructions@.len() ==> (#[trigger] instructions@[i]).accounts@.len() <= 65535 && instructions@[i].data@.len() <= 65535,
    ensures
        match msg {
            Ok(b) => compiled_v0_message(payer@, instructions_view(instructions@), blockhash@) == Some(b@),
            Err(_) => compiled_v0_message(payer@, instructions_view(instructions@), blockhash@) is None,
        },
        key_budget(instructions_view(instructions@)) <= 255 ==> msg is Ok,
        msg is Ok && key_budget(instructions_view(instructions@)) <= 127 && only_payer_signs(payer@, instructions_view(instructions@)) ==> single_signer_message(msg->Ok_0@, payer@),
{
    let ixs: Vec<Instruction> = instructions.iter().map(|i| Instruction { program_id: Pubkey::from(i.program_id), accounts: i.accounts.iter().map(|a| AccountMeta { pubkey: Pubkey::from(a.key), is_signer: a.is_signer, is_writable: a.is_writable }).collect(), data: i.data.clone() }).collect();
    v0::Message::try_compile(&Pubkey::from(payer), &ixs, &[], solana_sdk::hash::Hash::from(blockhash)).map(|m| VersionedMessage::V0(m).serialize())
}

/// `VersionedTransaction::try_new`: the signatures of one keypair, given by its
/// 64 bytes, on a compiled message. Ed25519 signing is deterministic. The crate
/// signs when the message requires exactly the keypair's public key.
#[verifier::external_body]
pub fn sign_message(message: &Vec<u8>, keypair: &[u8]) -> (sigs: Result<Vec<[u8; 64]>, SignerError>)
    requires
        is_compiled_message(message@),
        keypair_bytes_accepted(keypair@),
    ensures
        match sigs {
            Ok(s) => message_signatures(message@, keypair@) == Some(s@.map_values(|x: [u8; 64]| x@)),
            Err(_) => message_signatures(message@, keypair@) is None,
        },
        single_signer_message(message@, keypair@.subrange(32, 64)) ==> sigs is Ok && sigs->Ok_0@.len() == 1,
{
    let message: VersionedMessage = bincode::deserialize(message).unwrap();
    #[allow(deprecated)]
    let signer = Keypair::from_bytes(keypair).unwrap();
    VersionedTransaction::try_new(message, &[&signer]).map(|tx| tx.signatures.into_iter().map(<[u8; 64]>::from).collect())
}

/// `bincode::serialize` of the transaction made of these signatures and this
/// compiled message. It serializes whenever the signatures fit a compact length.
#[verifier::external_body]
pub fn serialize_transaction(signatures: &Vec<[u8; 64]>, message: &Vec<u8>) -> (bytes: Result<Vec<u8>, Box<bincode::ErrorKind>>)
    requires
        is_compiled_message(message@),
    ensures
        match bytes {
            Ok(b) => transaction_bytes(signatures@.map_values(|x: [u8; 64]| x@), message@) == Some(b@),
            Err(_) => transaction_bytes(signatures@.map_values(|x: [u8; 64]| x@), message@) is None,
        },
        signatures@.len() <= 65535 ==> bytes is Ok,
{
    let message: VersionedMessage = bincode::deserialize(message).unwrap();
    let tx = VersionedTransaction { signatures: signatures.iter().map(|s| Signature::from(*s)).collect(), message };
    bincode::serialize(&tx)
}

/// `bs58::encode(..).into_string()`: the base58 text of the bytes.
#[verifier::external_body]
pub fn encode_base58(bytes: &Vec<u8>) -> (text: String)
    ensures
        text@ == base58_text(bytes@),
{
    bs58::encode(bytes).into_string()
}

} // verus!
