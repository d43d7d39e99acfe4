//! Waiting for a transaction on the Geyser stream: the subscription that is asked
//! for, and how each update of the stream moves the wait along.

use vstd::prelude::*;
use crate::chain::{pubkey_base58, pubkey_text, signature_from_bytes};

verus! {

/// The commitment level at which updates are streamed.
pub enum Commitment {
    Processed,
    Confirmed,
    Finalized,
}

/// The transaction subscription sent on the stream.
pub struct TransactionSubscription {
    /// The name under which the filter is registered.
    pub filter_name: String,
    /// Whether vote transactions are included.
    pub vote: Option<bool>,
    /// Whether failed transactions are included.
    pub failed: Option<bool>,
    /// The accounts of which at least one must be touched, as base58 text.
    pub account_include: Vec<String>,
    /// The commitment at which updates are sent.
    pub commitment: Commitment,
}

/// The name of the wallet filter.
pub open spec fn wallet_filter_name() -> Seq<char> {
    "target_wallet_tracker"@
}

/// One message read from the stream.
pub enum StreamEvent {
    /// A transaction update: the signature bytes of its transaction (empty when the
    /// update carries no transaction) and the slot it landed in.
    Transaction { signature: Vec<u8>, slot: u64 },
    /// A keep-alive ping.
    Ping,
    /// Any other update, or a message that carries no update.
    Other,
    /// The stream reported an error, with its text.
    Failed(String),
    /// The stream ended.
    Closed,
}

/// What the wait does after one message.
pub enum WaitStep {
    /// Keep reading.
    Continue,
    /// The target landed in this slot.
    Confirmed(u64),
    /// The stream broke; the wait fails with this message.
    Lost(String),
    /// The stream ended before the target landed.
    Ended,
}

/// The message of a wait that fails because the stream ended.
pub open spec fn stream_ended_message() -> Seq<char> {
    "Yellowstone gRPC Stream closed unexpectedly before target signature land validation."@
}

/// The message of a wait that fails because the stream broke.
pub open spec fn stream_lost_message(reason: Seq<char>) -> Seq<char> {
    "Connection lost during real-time tracking loops: "@ + reason
}

/// Whether a stream message ends the wait for `target`: a transaction whose
/// signature bytes are exactly `target`, an error, or the end of the stream.
pub open spec fn is_decisive(target: Seq<u8>, event: StreamEvent) -> bool {
    match event {
        StreamEvent::Transaction { signature, slot } => signature@ == target,
        StreamEvent::Failed(_) => true,
        StreamEvent::Closed => true,
        _ => false,
    }
}

/// The message that ends a wait for `target` over these messages: the first
/// decisive one, if any.
pub open spec fn decisive_event(target: Seq<u8>, events: Seq<StreamEvent>) -> Option<StreamEvent>
    decreases events.len(),
{
    if events.len() == 0 {
        None
    } else if is_decisive(target, events[0]) {
        Some(events[0])
    } else {
        decisive_event(target, events.drop_first())
    }
}

/// Inserting a message that does not end the wait (a ping, another update, a
/// transaction without the target signature) anywhere in the stream leaves the
/// message that ends it, and so the wait's result, unchanged; read backwards,
/// removing such a message does too. Applied repeatedly, this covers any number
/// of such messages.
pub proof fn lemma_wait_ignores_skipped_messages(
    target: Seq<u8>,
    events: Seq<StreamEvent>,
    k: int,
    skipped: StreamEvent,
)
    requires
        0 <= k <= events.len(),
        !is_decisive(target, skipped),
    ensures
        decisive_event(target, events.insert(k, skipped)) == decisive_event(target, events),
    decreases k,
{
    let ins = events.insert(k, skipped);
    if k == 0 {
        assert(ins.drop_first() =~= events);
    } else {
        assert(ins[0] == events[0]);
        assert(ins.drop_first() =~= events.drop_first().insert(k - 1, skipped));
        lemma_wait_ignores_skipped_messages(target, events.drop_first(), k - 1, skipped);
    }
}

/// Monitor of one wallet's transactions on the Geyser stream.
pub struct GeyserStreamMonitor {
    pub wallet_pubkey: [u8; 32],
}

impl GeyserStreamMonitor {
    /// A monitor that tracks the given wallet.
    pub fn new(wallet_pubkey: [u8; 32]) -> (m: GeyserStreamMonitor)
        ensures
            m.wallet_pubkey == wallet_pubkey,
    {
        GeyserStreamMonitor { wallet_pubkey }
    }

    /// The subscription that streams, at confirmed commitment, the successful
    /// non-vote transactions that touch the tracked wallet.
    pub fn subscription(&self) -> (s: TransactionSubscription)
        ensures
            s.filter_name@ == wallet_filter_name(),
            s.vote == Some(false),
            s.failed == Some(false),
            s.account_include@.len() == 1,
            s.account_include@[0]@ == pubkey_base58(self.wallet_pubkey@),
            s.commitment is Confirmed,
    {
        let mut account_include: Vec<String> = Vec::new();
        account_include.push(pubkey_text(self.wallet_pubkey));
        TransactionSubscription {
            filter_name: String::from_str("target_wallet_tracker"),
            vote: Some(false),
            failed: Some(false),
            account_include,
            commitment: Commitment::Confirmed,
        }
    }
}

fn same_signature(a: &[u8; 64], b: &[u8; 64]) -> (r: bool)
    ensures
        r == (a@ == b@),
{
    let mut k: usize = 0;
    while k < 64
        invariant
            k <= 64,
            a@.len() == 64,
            b@.len() == 64,
            forall|q: int| 0 <= q < k ==> a@[q] == b@[q],
        decreases 64 - k,
    {
        if a[k] != b[k] {
            return false;
        }
        k = k + 1;
    }
    assert(a@ =~= b@);
    true
}

/// Moves the wait for `target` along by one stream message: a transaction whose
/// signature bytes are exactly `target` confirms it in its slot; an error or the
/// end of the stream stops the wait; anything else, including transactions whose
/// signature is malformed or different, is skipped.
pub fn on_stream_event(target: &[u8; 64], event: StreamEvent) -> (step: WaitStep)
    ensures
        step is Continue <==> !is_decisive(target@, event),
        match event {
            StreamEvent::Transaction { signature, slot } => step == if signature@ == target@ {
                WaitStep::Confirmed(slot)
            } else {
                WaitStep::Continue
            },
            StreamEvent::Failed(reason) => step matches WaitStep::Lost(m) && m@
                == stream_lost_message(reason@),
            StreamEvent::Closed => step is Ended,
            _ => step is Continue,
        },
{
    match event {
        StreamEvent::Transaction { signature, slot } => {
            match signature_from_bytes(signature.as_slice()) {
                Some(sig) => {
                    if same_signature(&sig, target) {
                        WaitStep::Confirmed(slot)
                    } else {
                        WaitStep::Continue
                    }
                },
                None => {
                    assert(signature@.len() != 64);
                    WaitStep::Continue
                },
            }
        },
        StreamEvent::Ping => WaitStep::Continue,
        StreamEvent::Other => WaitStep::Continue,
        StreamEvent::Failed(reason) => {
            let mut m = String::from_str("Connection lost during real-time tracking loops: ");
            m.append(reason.as_str());
            WaitStep::Lost(m)
        },
        StreamEvent::Closed => WaitStep::Ended,
    }
}

impl WaitStep {
    /// The text of a failed wait: the stream-ended message for `Ended`, the carried
    /// message for `Lost`, and `None` for steps that are not failures.
    pub fn failure_message(&self) -> (m: Option<String>)
        ensures
            self is Ended ==> (m matches Some(t) && t@ == stream_ended_message()),
            self matches WaitStep::Lost(msg) ==> (m matches Some(t) && t@ == msg@),
            (self is Continue || self is Confirmed) ==> m is None,
    {
        match self {
            WaitStep::Ended => Some(
                String::from_str(
                    "Yellowstone gRPC Stream closed unexpectedly before target signature land validation.",
                ),
            ),
            WaitStep::Lost(msg) => Some(msg.clone()),
            _ => None,
        }
    }
}

} // verus!
