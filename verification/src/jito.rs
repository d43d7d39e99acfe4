//! The bundle execution core: tip accounts, the transfers of a bundle, its signed
//! and encoded transaction, and the block engine's answer.

use vstd::prelude::*;
use crate::chain::{
    base58_text, choose_random, compile_v0_message, compiled_v0_message, encode_base58,
    instruction_view, instructions_view, key_budget, message_signatures, only_payer_signs,
    parse_pubkey, parsed_pubkey, serialize_transaction, sign_message, system_program_id,
    system_transfer, transaction_bytes, transfer_data, AccountRef, PlainInstruction,
};
use crate::tip::{dynamic_tip, tip_from_fees, BASELINE_TIP_LAMPORTS};
use crate::wallet::Wallet;

verus! {

/// The execution core's routes: state queries go to the RPC URL, bundle
/// submissions to the bundle URL.
pub struct JitoExecutor {
    pub jito_rpc_url: String,
    pub jito_bundle_url: String,
}

impl JitoExecutor {
    /// An executor with the two block engine routes.
    pub fn new(jito_rpc_url: String, jito_bundle_url: String) -> (ex: JitoExecutor)
        ensures
            ex.jito_rpc_url@ == jito_rpc_url@,
            ex.jito_bundle_url@ == jito_bundle_url@,
    {
        JitoExecutor { jito_rpc_url, jito_bundle_url }
    }

    /// The tip for the next bundle, from the network's recent prioritization fees:
    /// their 75th percentile, never below the baseline, and the baseline when the
    /// network reports none.
    pub fn calculate_dynamic_tip(&self, recent_fees: &Vec<u64>) -> (tip: u64)
        ensures
            tip == dynamic_tip(recent_fees@),
            tip >= BASELINE_TIP_LAMPORTS,
    {
        tip_from_fees(recent_fees)
    }
}

/// Why the tip accounts could not be had.
pub enum TipAccountsError {
    /// The answer's `result` was not a list.
    InvalidFormat,
    /// No entry of the list was a valid account address.
    NoTipAccounts,
}

impl TipAccountsError {
    /// The error's text.
    pub fn message(&self) -> (m: String)
        ensures
            self is InvalidFormat ==> m@ == "Invalid getTipAccounts format returned by Jito"@,
            self is NoTipAccounts ==> m@
                == "CRITICAL: No Jito tip accounts returned from Block Engine"@,
    {
        match self {
            TipAccountsError::InvalidFormat => String::from_str(
                "Invalid getTipAccounts format returned by Jito",
            ),
            TipAccountsError::NoTipAccounts => String::from_str(
                "CRITICAL: No Jito tip accounts returned from Block Engine",
            ),
        }
    }
}

/// The key an entry of the tip account list yields: a text entry that decodes as
/// an address yields it; anything else yields none.
pub open spec fn entry_key(entry: Option<String>) -> Option<Seq<u8>> {
    match entry {
        Some(text) => parsed_pubkey(text@),
        None => None,
    }
}

/// The keys of a tip account list, in list order, skipping entries that yield none.
pub open spec fn listed_keys(entries: Seq<Option<String>>) -> Seq<Seq<u8>> {
    entries.filter_map(|e: Option<String>| entry_key(e))
}

/// The accounts as byte sequences.
pub open spec fn account_keys(accounts: Seq<[u8; 32]>) -> Seq<Seq<u8>> {
    accounts.map_values(|k: [u8; 32]| k@)
}

/// `keys` are the keys of the entries at the positions `idx`, which rise strictly,
/// and every entry that yields a key stands at one of those positions.
pub open spec fn keys_at(entries: Seq<Option<String>>, keys: Seq<Seq<u8>>, idx: Seq<int>) -> bool {
    &&& idx.len() == keys.len()
    &&& forall|j: int|
        0 <= j < idx.len() ==> 0 <= #[trigger] idx[j] < entries.len() && entry_key(entries[idx[j]])
            == Some(keys[j])
    &&& forall|j1: int, j2: int| 0 <= j1 < j2 < idx.len() ==> #[trigger] idx[j1] < #[trigger] idx[j2]
    &&& forall|i: int|
        0 <= i < entries.len() && (#[trigger] entry_key(entries[i])) is Some ==> exists|j: int|
            0 <= j < idx.len() && #[trigger] idx[j] == i
}

/// The keys of a tip account list are drawn from the whole list, in list order:
/// every entry that yields a key contributes it, and nothing else is there. So the
/// list yields a key exactly when one of its entries does.
pub proof fn lemma_listed_keys_are_every_valid_entry(entries: Seq<Option<String>>)
    ensures
        exists|idx: Seq<int>| #[trigger] keys_at(entries, listed_keys(entries), idx),
        listed_keys(entries).len() > 0 <==> exists|i: int|
            0 <= i < entries.len() && (#[trigger] entry_key(entries[i])) is Some,
    decreases entries.len(),
{
    let f = |e: Option<String>| entry_key(e);
    if entries.len() == 0 {
        assert(keys_at(entries, listed_keys(entries), Seq::<int>::empty()));
    } else {
        let rest = entries.drop_last();
        let n = entries.len() - 1;
        lemma_listed_keys_are_every_valid_entry(rest);
        let idx_r = choose|idx: Seq<int>| keys_at(rest, listed_keys(rest), idx);
        let keys_r = listed_keys(rest);
        assert(listed_keys(rest) == rest.filter_map(f));
        assert forall|i: int| 0 <= i < n implies rest[i] == entries[i] by {}
        let idx = match entry_key(entries.last()) {
            Some(k) => idx_r.push(n),
            None => idx_r,
        };
        match entry_key(entries.last()) {
            Some(k) => {
                assert(listed_keys(entries) == keys_r + seq![k]);
            },
            None => {
                assert(listed_keys(entries) == keys_r);
            },
        }
        let keys = listed_keys(entries);
        assert forall|i: int|
            0 <= i < entries.len() && (#[trigger] entry_key(entries[i])) is Some implies exists|j: int|
                0 <= j < idx.len() && #[trigger] idx[j] == i by {
            if i < n {
                assert(entry_key(rest[i]) is Some);
                let j = choose|j: int| 0 <= j < idx_r.len() && #[trigger] idx_r[j] == i;
                assert(idx[j] == i);
            } else {
                assert(idx[idx.len() - 1] == i);
            }
        }
        assert forall|j: int| 0 <= j < idx.len() implies 0 <= #[trigger] idx[j] < entries.len()
            && entry_key(entries[idx[j]]) == Some(keys[j]) by {
            if j < idx_r.len() {
                assert(idx[j] == idx_r[j]);
                assert(keys[j] == keys_r[j]);
            }
        }
        assert forall|j1: int, j2: int| 0 <= j1 < j2 < idx.len() implies #[trigger] idx[j1] < #[trigger] idx[j2] by {
            if j2 < idx_r.len() {
                assert(idx[j1] == idx_r[j1]);
                assert(idx[j2] == idx_r[j2]);
            } else {
                assert(idx[j1] == idx_r[j1]);
                assert(idx_r[j1] < rest.len());
            }
        }
        assert(keys_at(entries, keys, idx));
        if keys.len() > 0 {
            assert(entry_key(entries[idx[0]]) is Some);
        }
    }
}

/// The tip accounts in the block engine's answer. `result` is the answer's
/// `result` field when it is a list, each entry given as its text when it is a
/// string. Entries that are not strings or not addresses are skipped.
pub fn parse_tip_accounts(result: Option<Vec<Option<String>>>) -> (r: Result<
    Vec<[u8; 32]>,
    TipAccountsError,
>)
    ensures
        result is None ==> r matches Err(TipAccountsError::InvalidFormat),
        result matches Some(entries) ==> {
            let keys = listed_keys(entries@);
            &&& keys.len() == 0 ==> r is Err && r->Err_0 is NoTipAccounts
            &&& keys.len() > 0 ==> r is Ok && r->Ok_0@.map_values(|k: [u8; 32]| k@) == keys
        },
        result matches Some(entries) ==> (r is Ok <==> exists|i: int|
            0 <= i < entries@.len() && (#[trigger] entry_key(entries@[i])) is Some),
        result is Some && r is Err ==> r->Err_0 is NoTipAccounts,
        result matches Some(entries) ==> (r is Ok ==> exists|idx: Seq<int>|
            #[trigger] keys_at(entries@, account_keys(r->Ok_0@), idx)),
{
    let entries = match result {
        None => return Err(TipAccountsError::InvalidFormat),
        Some(entries) => entries,
    };
    let ghost f = |e: Option<String>| entry_key(e);
    let mut accounts: Vec<[u8; 32]> = Vec::new();
    let n = entries.len();
    for i in 0..n
        invariant
            n == entries.len(),
            f == (|e: Option<String>| entry_key(e)),
            accounts@.map_values(|k: [u8; 32]| k@) == entries@.take(i as int).filter_map(f),
    {
        proof {
            entries@.lemma_filter_map_take_succ(f, i as int);
        }
        let ghost before = accounts@;
        let entry = &entries[i];
        assert(*entry == entries@[i as int]);
        match entry {
            Some(text) => {
                assert(entries@[i as int] == Some(*text));
                match parse_pubkey(text.as_str()) {
                    Some(key) => {
                        accounts.push(key);
                        assert(f(entries@[i as int]) == Some(key@));
                        assert(accounts@.map_values(|k: [u8; 32]| k@) =~= before.map_values(
                            |k: [u8; 32]| k@,
                        ) + seq![key@]);
                    },
                    None => {
                        assert(f(entries@[i as int]) is None);
                    },
                }
            },
            None => {
                assert(f(entries@[i as int]) is None);
            },
        }
    }
    proof {
        assert(entries@.take(n as int) =~= entries@);
        lemma_listed_keys_are_every_valid_entry(entries@);
        assert(account_keys(accounts@) == listed_keys(entries@));
    }
    let ghost idx = choose|idx: Seq<int>| #[trigger] keys_at(entries@, listed_keys(entries@), idx);
    if accounts.len() == 0 {
        Err(TipAccountsError::NoTipAccounts)
    } else {
        let r = Ok(accounts);
        assert(keys_at(entries@, account_keys(r->Ok_0@), idx));
        r
    }
}

/// A movement of lamports between two accounts.
pub struct Transfer {
    pub from: [u8; 32],
    pub to: [u8; 32],
    pub lamports: u64,
}

/// The two transfers of a bundle: a zero-lamport transfer from the payer to
/// itself, then the tip from the payer to the tip account.
pub fn bundle_transfers(payer: [u8; 32], tip_account: [u8; 32], tip: u64) -> (t: Vec<Transfer>)
    ensures
        t@.len() == 2,
        t@[0] == (Transfer { from: payer, to: payer, lamports: 0 }),
        t@[1] == (Transfer { from: payer, to: tip_account, lamports: tip }),
{
    let mut t: Vec<Transfer> = Vec::new();
    t.push(Transfer { from: payer, to: payer, lamports: 0 });
    t.push(Transfer { from: payer, to: tip_account, lamports: tip });
    t
}

/// The instructions of a bundle: one system transfer per planned transfer, in the
/// order of `bundle_transfers`.
pub fn bundle_instructions(payer: [u8; 32], tip_account: [u8; 32], tip: u64) -> (ixs: Vec<
    PlainInstruction,
>)
    ensures
        ixs@.len() == 2,
        forall|i: int|
            0 <= i < 2 ==> {
                let t = if i == 0 {
                    Transfer { from: payer, to: payer, lamports: 0 }
                } else {
                    Transfer { from: payer, to: tip_account, lamports: tip }
                };
                &&& (#[trigger] ixs@[i]).program_id@ == system_program_id()
                &&& ixs@[i].accounts@ == seq![
                    AccountRef { key: t.from, is_signer: true, is_writable: true },
                    AccountRef { key: t.to, is_signer: false, is_writable: true },
                ]
                &&& ixs@[i].data@ == transfer_data(t.lamports)
            },
        instructions_view(ixs@) == bundle_instruction_views(payer@, tip_account@, tip),
{
    let transfers = bundle_transfers(payer, tip_account, tip);
    let mut instructions: Vec<PlainInstruction> = Vec::new();
    let n = transfers.len();
    for i in 0..n
        invariant
            n == transfers@.len(),
            n == 2,
            transfers@[0] == (Transfer { from: payer, to: payer, lamports: 0 }),
            transfers@[1] == (Transfer { from: payer, to: tip_account, lamports: tip }),
            instructions@.len() == i,
            forall|k: int|
                0 <= k < i ==> {
                    let t = transfers@[k];
                    &&& (#[trigger] instructions@[k]).program_id@ == system_program_id()
                    &&& instructions@[k].accounts@ == seq![
                        AccountRef { key: t.from, is_signer: true, is_writable: true },
                        AccountRef { key: t.to, is_signer: false, is_writable: true },
                    ]
                    &&& instructions@[k].data@ == transfer_data(t.lamports)
                },
    {
        let t = &transfers[i];
        let ix = system_transfer(t.from, t.to, t.lamports);
        assert(ix.accounts@ =~= seq![
            AccountRef { key: t.from, is_signer: true, is_writable: true },
            AccountRef { key: t.to, is_signer: false, is_writable: true },
        ]);
        instructions.push(ix);
    }
    proof {
        let v = instructions_view(instructions@);
        let w = bundle_instruction_views(payer@, tip_account@, tip);
        assert forall|k: int| 0 <= k < 2 implies #[trigger] v[k] == w[k] by {
            let ix = instructions@[k];
            assert(ix.accounts@.map_values(|a: AccountRef| (a.key@, a.is_signer, a.is_writable))
                =~= w[k].1);
        }
        assert(v =~= w);
    }
    instructions
}

/// A system transfer as plain values: the system program moves `lamports` from
/// `from`, which signs and is written, to `to`, which is written.
pub open spec fn transfer_view(from: Seq<u8>, to: Seq<u8>, lamports: u64) -> (
    Seq<u8>,
    Seq<(Seq<u8>, bool, bool)>,
    Seq<u8>,
) {
    (system_program_id(), seq![(from, true, true), (to, false, true)], transfer_data(lamports))
}

/// The instructions of a bundle as plain values: a zero-lamport transfer from the
/// payer to itself, then the tip from the payer to the tip account.
pub open spec fn bundle_instruction_views(payer: Seq<u8>, tip_account: Seq<u8>, tip: u64) -> Seq<
    (Seq<u8>, Seq<(Seq<u8>, bool, bool)>, Seq<u8>),
> {
    seq![transfer_view(payer, payer, 0), transfer_view(payer, tip_account, tip)]
}

/// The serialized transaction of a bundle: the bundle's instructions compiled
/// with the keypair's public half as payer against `blockhash`, signed by the
/// keypair, and serialized.
pub open spec fn signed_bundle_bytes(keypair: Seq<u8>, blockhash: Seq<u8>, tip_account: Seq<u8>, tip: u64) -> Seq<u8> {
    let payer = keypair.subrange(32, 64);
    let message = compiled_v0_message(payer, bundle_instruction_views(payer, tip_account, tip), blockhash)->Some_0;
    let signatures = message_signatures(message, keypair)->Some_0;
    transaction_bytes(signatures, message)->Some_0
}

/// Why a bundle could not be had or was not accepted.
pub enum BundleError {
    /// No tip account was available to pay.
    NoTipAccount,
    /// The block engine refused the bundle, with this message.
    Rejected(String),
    /// The block engine accepted the call but named no bundle.
    MissingBundleId,
}

impl BundleError {
    /// The error's text.
    pub fn message(&self) -> (m: String)
        ensures
            self is NoTipAccount ==> m@ == "No tip accounts available"@,
            self matches BundleError::Rejected(msg) ==> m@ == msg@,
            self is MissingBundleId ==> m@ == "Valid bundle_id not found in successful response"@,
    {
        match self {
            BundleError::NoTipAccount => String::from_str("No tip accounts available"),
            BundleError::Rejected(msg) => msg.clone(),
            BundleError::MissingBundleId => String::from_str(
                "Valid bundle_id not found in successful response",
            ),
        }
    }
}

/// The signed transaction of a bundle that pays `tip` from the wallet's account to
/// `tip_account`, against `blockhash`, encoded in base58: the instructions of
/// `bundle_instructions` for the wallet's public key, compiled into a version-0
/// message with that key as payer, signed by the wallet, serialized.
pub fn encode_bundle_transaction(
    wallet: &Wallet,
    blockhash: [u8; 32],
    tip_account: [u8; 32],
    tip: u64,
) -> (text: String)
    ensures
        text@ == base58_text(signed_bundle_bytes(wallet.keypair_bytes(), blockhash@, tip_account@, tip)),
        ({
            let key = wallet.keypair_bytes();
            let payer = key.subrange(32, 64);
            let ixs = seq![
                (system_program_id(), seq![(payer, true, true), (payer, false, true)], transfer_data(0)),
                (system_program_id(), seq![(payer, true, true), (tip_account@, false, true)], transfer_data(tip)),
            ];
            &&& compiled_v0_message(payer, ixs, blockhash@) is Some
            &&& message_signatures(compiled_v0_message(payer, ixs, blockhash@)->Some_0, key) is Some
            &&& transaction_bytes(
                message_signatures(compiled_v0_message(payer, ixs, blockhash@)->Some_0, key)->Some_0,
                compiled_v0_message(payer, ixs, blockhash@)->Some_0,
            ) is Some
            &&& text@ == base58_text(
                transaction_bytes(
                    message_signatures(compiled_v0_message(payer, ixs, blockhash@)->Some_0, key)->Some_0,
                    compiled_v0_message(payer, ixs, blockhash@)->Some_0,
                )->Some_0,
            )
        }),
{
    let key = wallet.key_bytes();
    let payer = wallet.pubkey();
    let instructions = bundle_instructions(payer, tip_account, tip);
    let ghost views = instructions_view(instructions@);
    proof {
        assert(views =~= bundle_instruction_views(payer@, tip_account@, tip));
        assert(key_budget(views) == 7) by {
            reveal_with_fuel(key_budget, 3);
            assert(views.drop_last().drop_last() =~= Seq::<(Seq<u8>, Seq<(Seq<u8>, bool, bool)>, Seq<u8>)>::empty());
            assert(views.drop_last().last() == views[0]);
            assert(views[0].1.len() == 2);
            assert(views[1].1.len() == 2);
        }
        assert(only_payer_signs(payer@, views));
    }
    let message = match compile_v0_message(payer, &instructions, blockhash) {
        Ok(m) => m,
        Err(_) => {
            assert(false);
            return String::new();
        },
    };
    proof {
        assert(crate::chain::is_compiled_message(message@));
    }
    let signatures = match sign_message(&message, key.as_slice()) {
        Ok(s) => s,
        Err(_) => {
            assert(false);
            return String::new();
        },
    };
    let bytes = match serialize_transaction(&signatures, &message) {
        Ok(b) => b,
        Err(_) => {
            assert(false);
            return String::new();
        },
    };
    proof {
        assert(views =~= seq![
            (system_program_id(), seq![(payer@, true, true), (payer@, false, true)], transfer_data(0)),
            (system_program_id(), seq![(payer@, true, true), (tip_account@, false, true)], transfer_data(tip)),
        ]);
    }
    encode_base58(&bytes)
}

/// The transaction of a bundle holds exactly two system transfers, both signed
/// and paid by the keypair's public half: zero lamports to the payer itself,
/// then `tip` lamports to `tip_account`; that message, compiled against
/// `blockhash`, is what the keypair signs and what is serialized.
pub proof fn lemma_bundle_transfers_the_tip(keypair: Seq<u8>, blockhash: Seq<u8>, tip_account: Seq<u8>, tip: u64)
    ensures
        ({
            let payer = keypair.subrange(32, 64);
            let message = compiled_v0_message(
                payer,
                seq![
                    (system_program_id(), seq![(payer, true, true), (payer, false, true)], transfer_data(0)),
                    (system_program_id(), seq![(payer, true, true), (tip_account, false, true)], transfer_data(tip)),
                ],
                blockhash,
            )->Some_0;
            signed_bundle_bytes(keypair, blockhash, tip_account, tip) == transaction_bytes(
                message_signatures(message, keypair)->Some_0,
                message,
            )->Some_0
        }),
{
    let payer = keypair.subrange(32, 64);
    assert(bundle_instruction_views(payer, tip_account, tip) =~= seq![
        (system_program_id(), seq![(payer, true, true), (payer, false, true)], transfer_data(0)),
        (system_program_id(), seq![(payer, true, true), (tip_account, false, true)], transfer_data(tip)),
    ]);
}

/// A bundle ready to be sent: the tip account it pays and its encoded transaction.
pub struct PreparedBundle {
    pub tip_account: [u8; 32],
    pub encoded_transaction: String,
}

/// Picks one of the tip accounts at random and builds the bundle that pays it. A
/// bundle is built for every non-empty list; which account is paid is chance.
pub fn prepare_bundle(
    wallet: &Wallet,
    blockhash: [u8; 32],
    tip: u64,
    tip_accounts: &Vec<[u8; 32]>,
) -> (r: Result<PreparedBundle, BundleError>)
    ensures
        tip_accounts@.len() == 0 ==> r matches Err(BundleError::NoTipAccount),
        tip_accounts@.len() > 0 ==> r is Ok,
        r matches Ok(b) ==> tip_accounts@.contains(b.tip_account)
            && b.encoded_transaction@ == base58_text(
            signed_bundle_bytes(wallet.keypair_bytes(), blockhash@, b.tip_account@, tip),
        ),
{
    let tip_account = match choose_random(tip_accounts) {
        None => return Err(BundleError::NoTipAccount),
        Some(a) => a,
    };
    let encoded_transaction = encode_bundle_transaction(wallet, blockhash, tip_account, tip);
    Ok(PreparedBundle { tip_account, encoded_transaction })
}

/// The message reported for a refusal that carries no text.
pub open spec fn unknown_refusal() -> Seq<char> {
    "Unknown simulation error"@
}

/// The block engine's answer to a bundle submission. `error` is present when the
/// answer has an `error` field, holding its `message` when that is a string;
/// `result` holds the answer's `result` when it is a string.
pub fn interpret_bundle_response(error: Option<Option<String>>, result: Option<String>) -> (r:
    Result<String, BundleError>)
    ensures
        error matches Some(m) ==> r matches Err(BundleError::Rejected(msg)) && msg@ == (match m {
            Some(t) => t@,
            None => unknown_refusal(),
        }),
        error is None && result is Some ==> (r matches Ok(id) && id@ == result->0@),
        error is None && result is None ==> r matches Err(BundleError::MissingBundleId),
{
    match error {
        Some(m) => {
            let msg = match m {
                Some(t) => t,
                None => String::from_str("Unknown simulation error"),
            };
            Err(BundleError::Rejected(msg))
        },
        None => match result {
            Some(id) => Ok(id),
            None => Err(BundleError::MissingBundleId),
        },
    }
}

} // verus!
