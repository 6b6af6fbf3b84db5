use base64ct::Encoding;
use integration_tests::address::{Address, Rank};
use integration_tests::error::{Error, Flow, HarnessError, KeyFault, PackageFault};
use integration_tests::keys::{
    decode_keys, ed25519_private_key_from_base64, keypair_from_base64, keypair_from_bytes,
    load_keys, private_key_from_bytes, LoadedKeys, NetworkConfig, PrivateKey,
};
use integration_tests::text::{decimal_string, trim};
use integration_tests::validators::{index_validators, ValidatorKeys};

fn material(seed: u8) -> [u8; 32] {
    let mut bytes = [0u8; 32];
    for (i, b) in bytes.iter_mut().enumerate() {
        *b = seed.wrapping_add(i as u8);
    }
    bytes
}

fn flagged(flag: u8, key: &[u8]) -> String {
    let mut blob = vec![flag];
    blob.extend_from_slice(key);
    base64ct::Base64::encode_string(&blob)
}

fn raw(key: &[u8]) -> String {
    base64ct::Base64::encode_string(key)
}

#[test]
fn decimal_of_zero_is_one_digit() {
    assert_eq!(decimal_string(0), "0");
}

#[test]
fn decimal_keeps_inner_and_trailing_zeros() {
    assert_eq!(decimal_string(120), "120");
    assert_eq!(decimal_string(60_000), "60000");
    assert_eq!(decimal_string(1_000_000_000_000_000), "1000000000000000");
}

#[test]
fn decimal_of_largest_value() {
    assert_eq!(decimal_string(u64::MAX), "18446744073709551615");
    assert_eq!(decimal_string(u64::MAX), u64::MAX.to_string());
}

#[test]
fn trim_removes_whitespace_at_both_ends_only() {
    assert_eq!(trim("  /usr/bin/myso\n"), "/usr/bin/myso");
    assert_eq!(trim("\t a b \r\n"), "a b");
    assert_eq!(trim("plain"), "plain");
}

#[test]
fn trim_of_blank_text_is_empty() {
    assert_eq!(trim(""), "");
    assert_eq!(trim(" \n\t"), "");
}

#[test]
fn trim_knows_unicode_whitespace() {
    assert_eq!(trim("\u{2003}x\u{00a0}"), "x");
    assert_eq!(trim("\u{2003}x\u{00a0}"), "\u{2003}x\u{00a0}".trim());
}

#[test]
fn address_from_low_byte() {
    let five = Address::from_u8(5);
    let mut bytes = [0u8; 32];
    bytes[31] = 5;
    assert_eq!(five, Address::new(bytes));
    assert_eq!(five.as_bytes(), &bytes);
}

#[test]
fn address_text_is_hex_with_prefix() {
    assert_eq!(
        Address::from_u8(0xab).to_hex(),
        "0x00000000000000000000000000000000000000000000000000000000000000ab"
    );
    let mut bytes = [0u8; 32];
    bytes[0] = 0xf0;
    bytes[1] = 0x0f;
    assert_eq!(
        Address::new(bytes).to_hex(),
        "0xf00f000000000000000000000000000000000000000000000000000000000000"
    );
}

#[test]
fn address_rank_is_byte_string_order() {
    let mut high_first = [0u8; 32];
    high_first[0] = 1;
    let a = Address::new(high_first);
    let b = Address::from_u8(255);
    assert_eq!(b.rank(&a), Rank::Before);
    assert_eq!(a.rank(&b), Rank::After);
    assert_eq!(a.rank(&a), Rank::Same);
    assert!(b < a);
}

#[test]
fn builder_error_messages() {
    assert_eq!(
        Error::Input("bad".to_string()).message(),
        "Conversion error due to input issue: bad"
    );
    assert_eq!(
        Error::WrongGasObject.message(),
        "Gas object should be an immutable or owned object"
    );
    assert_eq!(Error::MissingObjectId.message(), "Missing object id");
    assert_eq!(Error::MissingSender.message(), "Missing sender");
    assert_eq!(Error::MissingGasObjects.message(), "Missing gas objects");
    assert_eq!(Error::MissingGasBudget.message(), "Missing gas budget");
    assert_eq!(Error::MissingGasPrice.message(), "Missing gas price");
    let two = "0x0000000000000000000000000000000000000000000000000000000000000002";
    assert_eq!(
        Error::MissingVersion(Address::from_u8(2)).message(),
        format!("Missing version for object {two}")
    );
    assert_eq!(
        Error::MissingDigest(Address::from_u8(2)).message(),
        format!("Missing digest for object {two}")
    );
    assert_eq!(
        Error::MissingObjectKind(Address::from_u8(2)).message(),
        format!("Missing object kind for object {two}")
    );
    assert_eq!(
        Error::SharedObjectMutability(Address::from_u8(2)).message(),
        format!("Unknown shared object mutability for object {two}")
    );
}

#[test]
fn harness_error_messages() {
    assert_eq!(
        HarnessError::BinaryNotFound.message(),
        "myso binary not found. Please install myso or set MYSO_BINARY env var"
    );
    assert_eq!(HarnessError::GenesisFailure.message(), "Failed to generate genesis");
    assert_eq!(
        HarnessError::ProcessSpawnFailure { reason: "No such file".to_string() }.message(),
        "Failed to run `myso start`: No such file"
    );
    assert_eq!(
        HarnessError::ReadinessTimeout { timeout_secs: 30 }.message(),
        "Network failed to start within 30s timeout"
    );
    assert_eq!(HarnessError::InvalidKey(KeyFault::Empty).message(), "Invalid key");
    assert_eq!(
        HarnessError::InvalidKey(KeyFault::UnsupportedScheme { flag: 1 }).message(),
        "Invalid key"
    );
    assert_eq!(
        HarnessError::TransactionBuildFailure(Error::MissingSender).message(),
        "Missing sender"
    );
    assert_eq!(
        HarnessError::TransactionExecutionFailure(Flow::Fund).message(),
        "fund failed"
    );
    assert_eq!(
        HarnessError::TransactionExecutionFailure(Flow::SystemStateUpgrade).message(),
        "system-state upgrade failed"
    );
    assert_eq!(
        HarnessError::InvalidBuildOutput(PackageFault::Module { index: 12 }).message(),
        "invalid Base64 in bytecode module 12"
    );
    assert_eq!(
        HarnessError::InvalidBuildOutput(PackageFault::Digest { len: 31 }).message(),
        "invalid digest length 31"
    );
    assert_eq!(
        HarnessError::PortExhaustion.message(),
        "Error: could not find an available port on localhost"
    );
}

#[test]
fn build_failure_message_escapes_both_streams() {
    let e = HarnessError::BuildSubprocessFailure {
        stdout: b"ok\n\t\"q\" 'a' \\".to_vec(),
        stderr: vec![0x00, 0x1f, 0x7f, 0xff, b'~', b' '],
    };
    assert_eq!(
        e.message(),
        "stdout: ok\\n\\t\\\"q\\\" \\'a\\' \\\\\n\n stderr: \\x00\\x1f\\x7f\\xff~ "
    );
    let expected = format!(
        "stdout: {}\n\n stderr: {}",
        b"ok\n\t\"q\" 'a' \\".escape_ascii(),
        [0x00u8, 0x1f, 0x7f, 0xff, b'~', b' '].escape_ascii()
    );
    assert_eq!(e.message(), expected);
}

#[test]
fn escaping_agrees_with_std_on_every_byte() {
    for b in 0..=255u8 {
        let e = HarnessError::BuildSubprocessFailure { stdout: vec![b, b'\r'], stderr: vec![] };
        assert_eq!(
            e.message(),
            format!("stdout: {}\n\n stderr: ", [b, b'\r'].escape_ascii())
        );
    }
}

#[test]
fn only_binary_not_found_is_a_skip() {
    assert!(HarnessError::BinaryNotFound.should_skip());
    assert!(!HarnessError::GenesisFailure.should_skip());
    assert!(!HarnessError::PortExhaustion.should_skip());
    assert!(!HarnessError::ReadinessTimeout { timeout_secs: 30 }.should_skip());
}

#[test]
fn validator_key_with_supported_flag_is_read() {
    let key = material(7);
    assert_eq!(keypair_from_base64(&flagged(0, &key)), Ok(PrivateKey { bytes: key }));
    let mut blob = vec![0u8];
    blob.extend_from_slice(&key);
    assert_eq!(keypair_from_bytes(&blob), Ok(PrivateKey { bytes: key }));
}

#[test]
fn validator_key_decodes_the_text_it_is_given() {
    // "AAEC...": the key is what the text stands for, not the text.
    let key = material(1);
    let text = flagged(0, &key);
    let got = keypair_from_base64(&text).unwrap();
    assert_eq!(got.bytes, key);
    assert_ne!(&got.bytes[..], &text.as_bytes()[..32]);
}

#[test]
fn validator_key_with_foreign_flag_is_rejected() {
    let key = material(3);
    for flag in [1u8, 2, 3, 4, 5, 6, 7, 0x80, 0xff] {
        let got = keypair_from_base64(&flagged(flag, &key));
        assert_eq!(got, Err(HarnessError::InvalidKey(KeyFault::UnsupportedScheme { flag })));
        assert_eq!(got.unwrap_err().message(), "Invalid key");
    }
}

#[test]
fn validator_key_of_wrong_length_is_rejected() {
    assert_eq!(
        keypair_from_base64(&flagged(0, &material(0)[..31])),
        Err(HarnessError::InvalidKey(KeyFault::WrongLength { len: 31 }))
    );
    let mut long = material(0).to_vec();
    long.push(9);
    assert_eq!(
        keypair_from_base64(&flagged(0, &long)),
        Err(HarnessError::InvalidKey(KeyFault::WrongLength { len: 33 }))
    );
    assert_eq!(
        keypair_from_base64(&flagged(0, &[])),
        Err(HarnessError::InvalidKey(KeyFault::WrongLength { len: 0 }))
    );
}

#[test]
fn empty_and_malformed_blobs_are_rejected() {
    assert_eq!(keypair_from_base64(""), Err(HarnessError::InvalidKey(KeyFault::Empty)));
    assert_eq!(
        keypair_from_base64("not base64!"),
        Err(HarnessError::InvalidKey(KeyFault::Encoding))
    );
    assert_eq!(
        keypair_from_base64("AAA"),
        Err(HarnessError::InvalidKey(KeyFault::Encoding))
    );
    assert_eq!(keypair_from_bytes(&[]), Err(HarnessError::InvalidKey(KeyFault::Empty)));
}

#[test]
fn user_key_has_no_flag() {
    let key = material(9);
    assert_eq!(ed25519_private_key_from_base64(&raw(&key)), Ok(PrivateKey { bytes: key }));
    assert_eq!(private_key_from_bytes(&key), Ok(PrivateKey { bytes: key }));
    // The same bytes with a flag in front are one byte too long for a user key.
    assert_eq!(
        ed25519_private_key_from_base64(&flagged(0, &key)),
        Err(HarnessError::InvalidKey(KeyFault::WrongLength { len: 33 }))
    );
    assert_eq!(
        ed25519_private_key_from_base64("@@@@"),
        Err(HarnessError::InvalidKey(KeyFault::Encoding))
    );
}

#[test]
fn load_keys_keeps_file_order() {
    let config = NetworkConfig {
        validator_keys: vec![flagged(0, &material(30)), flagged(0, &material(10))],
        account_keys: vec![raw(&material(5)), raw(&material(4)), raw(&material(6))],
    };
    assert_eq!(
        load_keys(&config),
        Ok(LoadedKeys {
            validator_keys: vec![
                PrivateKey { bytes: material(30) },
                PrivateKey { bytes: material(10) },
            ],
            user_keys: vec![
                PrivateKey { bytes: material(5) },
                PrivateKey { bytes: material(4) },
                PrivateKey { bytes: material(6) },
            ],
        })
    );
}

#[test]
fn load_keys_of_empty_configuration() {
    let config = NetworkConfig { validator_keys: vec![], account_keys: vec![] };
    assert_eq!(
        load_keys(&config),
        Ok(LoadedKeys { validator_keys: vec![], user_keys: vec![] })
    );
}

#[test]
fn load_keys_reports_the_first_bad_blob() {
    let config = NetworkConfig {
        validator_keys: vec![
            flagged(0, &material(1)),
            flagged(2, &material(2)),
            "???".to_string(),
        ],
        account_keys: vec!["".to_string()],
    };
    assert_eq!(
        load_keys(&config),
        Err(HarnessError::InvalidKey(KeyFault::UnsupportedScheme { flag: 2 }))
    );
    let config = NetworkConfig {
        validator_keys: vec![flagged(0, &material(1))],
        account_keys: vec![raw(&material(1)), raw(&material(1)[..8]), "???".to_string()],
    };
    assert_eq!(
        load_keys(&config),
        Err(HarnessError::InvalidKey(KeyFault::WrongLength { len: 8 }))
    );
}

#[test]
fn decode_keys_reads_flagged_and_raw_lists() {
    let blobs = vec![flagged(0, &material(1))];
    assert_eq!(decode_keys(&blobs, true), Ok(vec![PrivateKey { bytes: material(1) }]));
    assert_eq!(
        decode_keys(&blobs, false),
        Err(HarnessError::InvalidKey(KeyFault::WrongLength { len: 33 }))
    );
}

#[test]
fn validator_table_is_walked_in_address_order() {
    let mut table = ValidatorKeys::new();
    assert_eq!(table.len(), 0);
    let k = |n: u8| PrivateKey { bytes: material(n) };
    assert_eq!(table.insert(Address::from_u8(9), k(9)), None);
    assert_eq!(table.insert(Address::from_u8(2), k(2)), None);
    assert_eq!(table.insert(Address::from_u8(200), k(200)), None);
    assert_eq!(table.insert(Address::from_u8(5), k(5)), None);
    assert_eq!(table.len(), 4);
    assert_eq!(
        table.addresses(),
        vec![
            Address::from_u8(2),
            Address::from_u8(5),
            Address::from_u8(9),
            Address::from_u8(200),
        ]
    );
    assert_eq!(table.get(&Address::from_u8(5)), Some(k(5)));
    assert_eq!(table.get(&Address::from_u8(6)), None);
    let entries = table.entries();
    assert_eq!(entries.len(), 4);
    assert_eq!(entries[3].key, k(200));
}

#[test]
fn validator_table_replaces_a_key_for_the_same_address() {
    let mut table = ValidatorKeys::new();
    let k = |n: u8| PrivateKey { bytes: material(n) };
    assert_eq!(table.insert(Address::from_u8(1), k(1)), None);
    assert_eq!(table.insert(Address::from_u8(1), k(2)), Some(k(1)));
    assert_eq!(table.len(), 1);
    assert_eq!(table.get(&Address::from_u8(1)), Some(k(2)));
}

#[test]
fn index_validators_needs_one_address_per_key() {
    let k = |n: u8| PrivateKey { bytes: material(n) };
    assert!(index_validators(&vec![Address::from_u8(1)], &vec![]).is_none());
    let table = index_validators(
        &vec![Address::from_u8(3), Address::from_u8(1), Address::from_u8(3)],
        &vec![k(30), k(10), k(31)],
    )
    .unwrap();
    assert_eq!(table.addresses(), vec![Address::from_u8(1), Address::from_u8(3)]);
    assert_eq!(table.get(&Address::from_u8(3)), Some(k(31)));
    assert_eq!(table.get(&Address::from_u8(1)), Some(k(10)));
}

#[test]
fn address_is_read_from_hex() {
    assert_eq!(Address::from_hex("0x5"), Some(Address::from_u8(5)));
    assert_eq!(Address::from_hex("0xAb"), Some(Address::from_u8(0xab)));
    assert_eq!(Address::from_hex("0x123"), {
        let mut bytes = [0u8; 32];
        bytes[30] = 0x01;
        bytes[31] = 0x23;
        Some(Address::new(bytes))
    });
    let mut bytes = [0u8; 32];
    for (i, b) in bytes.iter_mut().enumerate() {
        *b = (i as u8) * 8 + 1;
    }
    let address = Address::new(bytes);
    assert_eq!(Address::from_hex(&address.to_hex()), Some(address));
    assert_eq!(Address::from_hex(&address.to_hex().to_uppercase().replace("0X", "0x")), Some(address));
}

#[test]
fn address_rejects_what_is_not_hex() {
    let too_long = format!("0x{}", "0".repeat(65));
    for text in ["", "0x", "5", "x5", "0X5", "0x5g", "0x 5", "0x-5", too_long.as_str(), "0xé"] {
        assert_eq!(Address::from_hex(text), None, "{text:?}");
    }
}
