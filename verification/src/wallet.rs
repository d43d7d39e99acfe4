//! The signing wallet, loaded from the bytes of its keypair.

use vstd::prelude::*;
use crate::chain::{json_byte_array, keypair_bytes_accepted, keypair_from_bytes, parse_json_byte_array};

verus! {

/// The keypair that signs bundles, held as its 64 bytes (secret half, then public
/// half), with its public key.
pub struct Wallet {
    key_bytes: Vec<u8>,
    pubkey: [u8; 32],
}

/// Why the wallet could not be loaded.
pub enum WalletError {
    /// The key text is not a JSON array of bytes.
    InvalidKeyText,
    /// The bytes are not a valid keypair.
    InvalidKeypair,
}

impl WalletError {
    /// The error's text.
    pub fn message(&self) -> (m: String)
        ensures
            self is InvalidKeyText ==> m@
                == "SOLANA_PRIVATE_KEY format must be a clean valid JSON integer array (e.g., [12,34,...])"@,
            self is InvalidKeypair ==> m@
                == "Failed to initialize cryptographic Keypair from private key payload"@,
    {
        match self {
            WalletError::InvalidKeyText => String::from_str(
                "SOLANA_PRIVATE_KEY format must be a clean valid JSON integer array (e.g., [12,34,...])",
            ),
            WalletError::InvalidKeypair => String::from_str(
                "Failed to initialize cryptographic Keypair from private key payload",
            ),
        }
    }
}

impl Wallet {
    #[verifier::type_invariant]
    spec fn well_formed(self) -> bool {
        &&& keypair_bytes_accepted(self.key_bytes@)
        &&& self.key_bytes@.len() == 64
        &&& self.pubkey@ == self.key_bytes@.subrange(32, 64)
    }

    /// The keypair's 64 bytes.
    pub closed spec fn keypair_bytes(&self) -> Seq<u8> {
        self.key_bytes@
    }

    /// The keypair's bytes, which the keypair decoder accepts.
    pub fn key_bytes(&self) -> (k: &Vec<u8>)
        ensures
            k@ == self.keypair_bytes(),
            keypair_bytes_accepted(k@),
            k@.len() == 64,
    {
        proof {
            use_type_invariant(self);
        }
        &self.key_bytes
    }

    /// The public key: the keypair's public half.
    pub fn pubkey(&self) -> (p: [u8; 32])
        ensures
            p@ == self.keypair_bytes().subrange(32, 64),
    {
        proof {
            use_type_invariant(self);
        }
        self.pubkey
    }

    /// The wallet whose keypair the bytes encode (secret half, then public half).
    /// It loads exactly when the keypair decoder accepts the bytes, which needs
    /// exactly 64 of them; its public key is then the public half.
    pub fn from_key_bytes(key_bytes: &Vec<u8>) -> (r: Result<Wallet, WalletError>)
        ensures
            r is Ok <==> keypair_bytes_accepted(key_bytes@),
            r is Ok ==> key_bytes@.len() == 64,
            r matches Ok(w) ==> w.keypair_bytes() == key_bytes@,
            r is Err ==> r->Err_0 is InvalidKeypair,
    {
        match keypair_from_bytes(key_bytes.as_slice()) {
            None => Err(WalletError::InvalidKeypair),
            Some(_keypair) => {
                let mut pubkey = [0u8; 32];
                let mut i: usize = 0;
                while i < 32
                    invariant
                        key_bytes@.len() == 64,
                        i <= 32,
                        forall|k: int| 0 <= k < i ==> pubkey@[k] == key_bytes@[32 + k],
                    decreases 32 - i,
                {
                    pubkey[i] = key_bytes[32 + i];
                    i = i + 1;
                }
                assert(pubkey@ =~= key_bytes@.subrange(32, 64));
                Ok(Wallet { key_bytes: key_bytes.clone(), pubkey })
            },
        }
    }

    /// The wallet whose keypair a JSON array of bytes gives, such as `[12,34,...]`.
    pub fn from_key_text(text: &str) -> (r: Result<Wallet, WalletError>)
        ensures
            json_byte_array(text@) is None <==> r matches Err(WalletError::InvalidKeyText),
            json_byte_array(text@) matches Some(bytes) ==> (r is Ok <==> keypair_bytes_accepted(
                bytes,
            )) && (r matches Ok(w) ==> w.keypair_bytes() == bytes) && (r is Err ==> r->Err_0 is InvalidKeypair),
    {
        match parse_json_byte_array(text) {
            None => Err(WalletError::InvalidKeyText),
            Some(bytes) => Wallet::from_key_bytes(&bytes),
        }
    }
}

/// The state flag of the status portal: whether the node answered the balance query.
pub fn portal_status(balance_lamports: Option<u64>) -> (flag: &'static str)
    ensures
        balance_lamports is Some ==> flag@ == "ACTIVE"@,
        balance_lamports is None ==> flag@ == "RPC_TIMEOUT"@,
{
    match balance_lamports {
        Some(_) => "ACTIVE",
        None => "RPC_TIMEOUT",
    }
}

} // verus!
