//! Private keys as the generated network configuration stores them: Base64
//! blobs, with a scheme flag in front for validators and without one for
//! user accounts.

use vstd::prelude::*;
use crate::base64::{base64_decoded, decode_base64};
use crate::error::{HarnessError, KeyFault};

verus! {

/// Flag byte of the one signature scheme the harness signs with.
pub const ED25519_FLAG: u8 = 0;

/// Number of bytes in a private key.
pub const PRIVATE_KEY_LENGTH: usize = 32;

/// The material of an Ed25519 private key.
#[derive(Clone, Copy, Debug, PartialEq, Eq)]
pub struct PrivateKey {
    pub bytes: [u8; 32],
}

impl View for PrivateKey {
    type V = Seq<u8>;

    open spec fn view(&self) -> Seq<u8> {
        self.bytes@
    }
}

/// The key that a string of raw key bytes holds: the bytes themselves, if
/// there are exactly as many as a key has.
pub open spec fn raw_key(bytes: Seq<u8>) -> Result<Seq<u8>, KeyFault> {
    if bytes.len() == PRIVATE_KEY_LENGTH {
        Ok(bytes)
    } else {
        Err(KeyFault::WrongLength { len: bytes.len() as usize })
    }
}

/// The key that a flagged blob holds: what follows the flag byte, if the flag
/// is that of the supported scheme.
pub open spec fn flagged_key(bytes: Seq<u8>) -> Result<Seq<u8>, KeyFault> {
    if bytes.len() == 0 {
        Err(KeyFault::Empty)
    } else if bytes[0] != ED25519_FLAG {
        Err(KeyFault::UnsupportedScheme { flag: bytes[0] })
    } else {
        raw_key(bytes.skip(1))
    }
}

/// The key that a Base64 text holds, read with or without a scheme flag.
pub open spec fn blob_key(text: Seq<char>, flagged: bool) -> Result<Seq<u8>, KeyFault> {
    match base64_decoded(text) {
        None => Err(KeyFault::Encoding),
        Some(bytes) => if flagged {
            flagged_key(bytes)
        } else {
            raw_key(bytes)
        },
    }
}

/// Whether `got` is the outcome that `want` asks for: the key with those
/// bytes, or the invalid-key error with that fault.
pub open spec fn key_outcome(
    got: Result<PrivateKey, HarnessError>,
    want: Result<Seq<u8>, KeyFault>,
) -> bool {
    match want {
        Ok(bytes) => got is Ok && got->Ok_0@ == bytes,
        Err(fault) => got is Err && got->Err_0 == HarnessError::InvalidKey(fault),
    }
}

/// Whether `keys` are the keys of `blobs`, one for one and in order.
pub open spec fn keys_decoded(blobs: Seq<String>, flagged: bool, keys: Seq<PrivateKey>) -> bool {
    &&& keys.len() == blobs.len()
    &&& forall|i: int|
        0 <= i < blobs.len() ==> blob_key(#[trigger] blobs[i]@, flagged) == Ok::<Seq<u8>, KeyFault>(
            keys[i]@,
        )
}

/// Whether `fault` is what is wrong with the first blob that holds no key.
pub open spec fn first_fault(blobs: Seq<String>, flagged: bool, fault: KeyFault) -> bool {
    exists|i: int|
        0 <= i < blobs.len() && blob_key(#[trigger] blobs[i]@, flagged) == Err::<Seq<u8>, KeyFault>(
            fault,
        ) && forall|j: int| 0 <= j < i ==> blob_key(#[trigger] blobs[j]@, flagged) is Ok
}

/// Whether `got` is the outcome of reading every blob in turn: all the keys,
/// or the invalid-key error of the first blob that holds none.
pub open spec fn keys_outcome(
    blobs: Seq<String>,
    flagged: bool,
    got: Result<Vec<PrivateKey>, HarnessError>,
) -> bool {
    match got {
        Ok(keys) => keys_decoded(blobs, flagged, keys@),
        Err(e) => e matches HarnessError::InvalidKey(fault) && first_fault(blobs, flagged, fault),
    }
}

/// Reads a private key from exactly thirty-two raw bytes.
pub fn private_key_from_bytes(bytes: &[u8]) -> (key: Result<PrivateKey, HarnessError>)
    ensures
        key_outcome(key, raw_key(bytes@)),
{
    if bytes.len() != PRIVATE_KEY_LENGTH {
        return Err(HarnessError::InvalidKey(KeyFault::WrongLength { len: bytes.len() }));
    }
    let mut material = [0u8; 32];
    let mut i: usize = 0;
    while i < 32
        invariant
            i <= 32,
            bytes@.len() == 32,
            forall|j: int| 0 <= j < i ==> material@[j] == bytes@[j],
        decreases 32 - i,
    {
        material[i] = bytes[i];
        i += 1;
    }
    assert(material@ =~= bytes@);
    Ok(PrivateKey { bytes: material })
}

/// Reads a private key from a flag byte followed by the key material.
pub fn keypair_from_bytes(bytes: &[u8]) -> (key: Result<PrivateKey, HarnessError>)
    ensures
        key_outcome(key, flagged_key(bytes@)),
{
    if bytes.len() == 0 {
        return Err(HarnessError::InvalidKey(KeyFault::Empty));
    }
    let flag = bytes[0];
    if flag != ED25519_FLAG {
        return Err(HarnessError::InvalidKey(KeyFault::UnsupportedScheme { flag }));
    }
    let material = vstd::slice::slice_subrange(bytes, 1, bytes.len());
    assert(material@ =~= bytes@.skip(1));
    private_key_from_bytes(material)
}

/// Reads a validator key: Base64 of a flag byte and the key material.
pub fn keypair_from_base64(b64: &str) -> (key: Result<PrivateKey, HarnessError>)
    ensures
        key_outcome(key, blob_key(b64@, true)),
{
    match decode_base64(b64) {
        Some(bytes) => keypair_from_bytes(bytes.as_slice()),
        None => Err(HarnessError::InvalidKey(KeyFault::Encoding)),
    }
}

/// Reads a user account key: Base64 of the key material alone.
pub fn ed25519_private_key_from_base64(b64: &str) -> (key: Result<PrivateKey, HarnessError>)
    ensures
        key_outcome(key, blob_key(b64@, false)),
{
    match decode_base64(b64) {
        Some(bytes) => private_key_from_bytes(bytes.as_slice()),
        None => Err(HarnessError::InvalidKey(KeyFault::Encoding)),
    }
}

/// Reads a list of key blobs in order and stops at the first that holds no
/// key.
pub fn decode_keys(blobs: &Vec<String>, flagged: bool) -> (keys: Result<
    Vec<PrivateKey>,
    HarnessError,
>)
    ensures
        keys_outcome(blobs@, flagged, keys),
{
    let mut keys: Vec<PrivateKey> = Vec::new();
    let mut i: usize = 0;
    while i < blobs.len()
        invariant
            i <= blobs.len(),
            keys_decoded(blobs@.take(i as int), flagged, keys@),
        decreases blobs.len() - i,
    {
        let read = if flagged {
            keypair_from_base64(blobs[i].as_str())
        } else {
            ed25519_private_key_from_base64(blobs[i].as_str())
        };
        match read {
            Ok(key) => {
                keys.push(key);
                proof {
                    let next = blobs@.take(i + 1);
                    assert forall|k: int| 0 <= k < next.len() implies blob_key(
                        #[trigger] next[k]@,
                        flagged,
                    ) == Ok::<Seq<u8>, KeyFault>(keys@[k]@) by {
                        if k < i {
                            assert(blobs@.take(i as int)[k] == next[k]);
                        }
                    }
                }
            },
            Err(e) => {
                proof {
                    let fault = blob_key(blobs@[i as int]@, flagged)->Err_0;
                    assert forall|j: int| 0 <= j < i implies blob_key(
                        #[trigger] blobs@[j]@,
                        flagged,
                    ) is Ok by {
                        assert(blobs@.take(i as int)[j] == blobs@[j]);
                    }
                    assert(first_fault(blobs@, flagged, fault));
                }
                return Err(e);
            },
        }
        i += 1;
    }
    assert(blobs@.take(blobs.len() as int) =~= blobs@);
    Ok(keys)
}

/// The key blobs of a generated network configuration.
#[derive(Clone, Debug, PartialEq, Eq)]
pub struct NetworkConfig {
    /// Account key of each validator, Base64 with a scheme flag.
    pub validator_keys: Vec<String>,
    /// Key of each pre-funded user account, Base64 without a flag.
    pub account_keys: Vec<String>,
}

/// The keys read from a network configuration, in the order of the file.
#[derive(Clone, Debug, PartialEq, Eq)]
pub struct LoadedKeys {
    pub validator_keys: Vec<PrivateKey>,
    pub user_keys: Vec<PrivateKey>,
}

/// Whether `got` is the outcome of loading `config`: every validator key and
/// every user key in file order, or the invalid-key error of the first blob
/// that holds no key, validators being read before user accounts.
pub open spec fn load_outcome(config: NetworkConfig, got: Result<LoadedKeys, HarnessError>) -> bool {
    match got {
        Ok(loaded) => {
            &&& keys_decoded(config.validator_keys@, true, loaded.validator_keys@)
            &&& keys_decoded(config.account_keys@, false, loaded.user_keys@)
        },
        Err(e) => {
            &&& e matches HarnessError::InvalidKey(fault)
            &&& first_fault(config.validator_keys@, true, fault) || (exists|keys: Seq<PrivateKey>|
                keys_decoded(config.validator_keys@, true, keys)) && first_fault(
                config.account_keys@,
                false,
                fault,
            )
        },
    }
}

/// Reads the validator keys and the user keys of a network configuration.
pub fn load_keys(config: &NetworkConfig) -> (loaded: Result<LoadedKeys, HarnessError>)
    ensures
        load_outcome(*config, loaded),
{
    let validator_keys = match decode_keys(&config.validator_keys, true) {
        Ok(keys) => keys,
        Err(e) => {
            return Err(e);
        },
    };
    let user_keys = match decode_keys(&config.account_keys, false) {
        Ok(keys) => keys,
        Err(e) => {
            assert(keys_decoded(config.validator_keys@, true, validator_keys@));
            return Err(e);
        },
    };
    Ok(LoadedKeys { validator_keys, user_keys })
}

/// A blob whose first byte is not the flag of the supported scheme holds no
/// key, whatever follows the flag.
pub proof fn lemma_foreign_scheme_rejected(text: Seq<char>, bytes: Seq<u8>)
    requires
        base64_decoded(text) == Some(bytes),
        bytes.len() > 0,
        bytes[0] != ED25519_FLAG,
    ensures
        blob_key(text, true) == Err::<Seq<u8>, KeyFault>(
            KeyFault::UnsupportedScheme { flag: bytes[0] },
        ),
        forall|got: Result<PrivateKey, HarnessError>|
            key_outcome(got, blob_key(text, true)) ==> got is Err && got->Err_0.message_text()
                == "Invalid key"@,
{
}

/// A configuration in which some validator blob holds no key is never
/// loaded: the outcome is an invalid-key error.
pub proof fn lemma_load_rejects_bad_validator(
    config: NetworkConfig,
    got: Result<LoadedKeys, HarnessError>,
    i: int,
)
    requires
        load_outcome(config, got),
        0 <= i < config.validator_keys@.len(),
        blob_key(config.validator_keys@[i]@, true) is Err,
    ensures
        got is Err,
        got->Err_0 is InvalidKey,
        got->Err_0.message_text() == "Invalid key"@,
{
}

} // verus!
