use safe_data::crypto::PublicKey;
use safe_data::crypto::SecretKey;
use safe_data::error::Error;
use safe_data::structured_data::StructuredData;

fn sd_keypair() -> (PublicKey, SecretKey) {
    let seed: [u8; 32] = rand::random();
    let signing = ed25519_dalek::SigningKey::from_bytes(&seed);
    (
        PublicKey::new(signing.verifying_key().to_bytes()),
        SecretKey::new(seed),
    )
}

#[test]
fn single_owner() {
    let keys = sd_keypair();
    let owner_keys = vec![keys.0];

    assert!(StructuredData::new(
        0,
        rand::random(),
        0,
        vec![],
        owner_keys.clone(),
        vec![],
        Some(&keys.1),
        true
    )
    .is_ok());
}

#[test]
fn single_owner_unsigned() {
    let keys = sd_keypair();
    let owner_keys = vec![keys.0];

    let structured_data = StructuredData::new(
        0,
        rand::random(),
        0,
        vec![],
        owner_keys.clone(),
        vec![],
        None,
        true,
    );
    assert!(structured_data.is_ok());
    assert!(structured_data
        .expect("")
        .verify_previous_owner_signatures(&owner_keys)
        .is_err());
}

#[test]
fn single_owner_other_signing_key() {
    let keys = sd_keypair();
    let owner_keys = vec![keys.0];
    let other_keys = sd_keypair();

    let structured_data = StructuredData::new(
        0,
        rand::random(),
        0,
        vec![],
        owner_keys.clone(),
        vec![],
        Some(&other_keys.1),
        true,
    );

    assert!(structured_data.is_ok());
    assert!(structured_data
        .expect("")
        .verify_previous_owner_signatures(&owner_keys)
        .is_err());
}

#[test]
fn single_owner_other_signature() {
    let keys = sd_keypair();
    let owner_keys = vec![keys.0];
    let other_keys = sd_keypair();

    if let Ok(ref mut structured_data) = StructuredData::new(
        0,
        rand::random(),
        0,
        vec![],
        owner_keys.clone(),
        vec![],
        None,
        true,
    ) {
        assert!(structured_data.add_signature(&other_keys.1).is_ok());
        assert!(structured_data
            .verify_previous_owner_signatures(&owner_keys)
            .is_err());
    } else {
        panic!("Test failed");
    }
}

#[test]
fn three_owners() {
    let keys1 = sd_keypair();
    let keys2 = sd_keypair();
    let keys3 = sd_keypair();

    let owner_keys = vec![keys1.0, keys2.0, keys3.0];

    match StructuredData::new(
        0,
        rand::random(),
        0,
        vec![],
        owner_keys.clone(),
        vec![],
        None,
        true,
    ) {
        Ok(mut structured_data) => {
            // After one signature, one more is required to reach majority.
            assert_eq!(structured_data.add_signature(&keys1.1).unwrap(), 1);
            assert!(structured_data
                .verify_previous_owner_signatures(&owner_keys)
                .is_err());
            // Two out of three is enough.
            assert_eq!(structured_data.add_signature(&keys2.1).unwrap(), 0);
            assert!(structured_data
                .verify_previous_owner_signatures(&owner_keys)
                .is_ok());
            // Three out of three is also fine.
            assert_eq!(structured_data.add_signature(&keys3.1).unwrap(), 0);
            assert!(structured_data
                .verify_previous_owner_signatures(&owner_keys)
                .is_ok());
        }
        Err(error) => panic!("Error: {:?}", error),
    }
}

#[test]
fn four_owners() {
    let keys1 = sd_keypair();
    let keys2 = sd_keypair();
    let keys3 = sd_keypair();
    let keys4 = sd_keypair();

    let owner_keys = vec![keys1.0, keys2.0, keys3.0, keys4.0];

    match StructuredData::new(
        0,
        rand::random(),
        0,
        vec![],
        owner_keys.clone(),
        vec![],
        Some(&keys1.1),
        true,
    ) {
        Ok(mut structured_data) => {
            // Two signatures are not enough because they don't have a strict
            // majority: two is not more than half of four.
            assert_eq!(structured_data.add_signature(&keys2.1).unwrap(), 1);
            assert!(structured_data
                .verify_previous_owner_signatures(&owner_keys)
                .is_err());
            // Three out of four is enough.
            assert_eq!(structured_data.add_signature(&keys3.1).unwrap(), 0);
            assert!(structured_data
                .verify_previous_owner_signatures(&owner_keys)
                .is_ok());
            // Four out of four is also fine.
            assert_eq!(structured_data.add_signature(&keys4.1).unwrap(), 0);
            assert!(structured_data
                .verify_previous_owner_signatures(&owner_keys)
                .is_ok());
        }
        Err(error) => panic!("Error: {:?}", error),
    }
}

#[test]
fn transfer_owners() {
    let keys1 = sd_keypair();
    let keys2 = sd_keypair();
    let keys3 = sd_keypair();
    let new_owner = sd_keypair();

    let identifier: [u8; 32] = rand::random();

    // Owned by keys1 keys2 and keys3
    match StructuredData::new(
        0,
        identifier,
        0,
        vec![],
        vec![keys1.0, keys2.0, keys3.0],
        vec![],
        Some(&keys1.1),
        true,
    ) {
        Ok(mut orig_structured_data) => {
            assert_eq!(orig_structured_data.add_signature(&keys2.1).ok(), Some(0));
            // Transfer ownership and update to new owner
            match StructuredData::new(
                0,
                identifier,
                1,
                vec![],
                vec![new_owner.0],
                vec![keys1.0, keys2.0, keys3.0],
                Some(&keys1.1),
                true,
            ) {
                Ok(mut new_structured_data) => {
                    assert_eq!(new_structured_data.add_signature(&keys2.1).ok(), Some(0));
                    match orig_structured_data.replace_with_other(new_structured_data) {
                        Ok(()) => (),
                        Err(e) => panic!("Error {:?}", e),
                    }
                    // transfer ownership back to keys1 only
                    match StructuredData::new(
                        0,
                        identifier,
                        2,
                        vec![],
                        vec![keys1.0],
                        vec![new_owner.0],
                        Some(&new_owner.1),
                        true,
                    ) {
                        Ok(another_new_structured_data) => {
                            match orig_structured_data
                                .replace_with_other(another_new_structured_data)
                            {
                                Ok(()) => (),
                                Err(e) => panic!("Error {:?}", e),
                            }
                        }
                        Err(error) => panic!("Error: {:?}", error),
                    }
                }
                Err(error) => panic!("Error: {:?}", error),
            }
        }
        Err(error) => panic!("Error: {:?}", error),
    }
}

#[test]
fn transfer_quorum_threshold() {
    // Predecessor owned by {A, B, C}; the successor hands ownership to {D}.
    let key_a = sd_keypair();
    let key_b = sd_keypair();
    let key_c = sd_keypair();
    let key_d = sd_keypair();

    let identifier: [u8; 32] = rand::random();

    let predecessor = StructuredData::new(
        0,
        identifier,
        0,
        vec![],
        vec![key_a.0, key_b.0, key_c.0],
        vec![],
        None,
        true,
    )
    .unwrap();

    // With exactly one of {A, B, C} signing, the transfer fails.
    let candidate = StructuredData::new(
        0,
        identifier,
        1,
        vec![],
        vec![key_d.0],
        vec![key_a.0, key_b.0, key_c.0],
        Some(&key_a.1),
        true,
    )
    .unwrap();
    let mut stored = predecessor.clone();
    assert_eq!(
        stored.replace_with_other(candidate.clone()),
        Err(Error::Validation)
    );

    // Once two of {A, B, C} have signed, the transfer succeeds.
    let mut signed_candidate = candidate;
    assert!(signed_candidate.add_signature(&key_b.1).is_ok());
    assert_eq!(stored.replace_with_other(signed_candidate), Ok(()));
    assert_eq!(stored.get_owner_keys(), &vec![key_d.0]);
    assert_eq!(stored.get_version(), 1);
}

#[test]
fn presigned_single_owner_needs_nothing_more() {
    let keys = sd_keypair();
    let owner_keys = vec![keys.0];

    let mut structured_data = StructuredData::new(
        0,
        rand::random(),
        0,
        vec![],
        owner_keys.clone(),
        vec![],
        Some(&keys.1),
        true,
    )
    .unwrap();
    assert_eq!(structured_data.add_signature(&keys.1).unwrap(), 0);
}

#[test]
fn version_step_is_mandatory() {
    let keys = sd_keypair();
    let owner_keys = vec![keys.0];
    let identifier: [u8; 32] = rand::random();

    let stored = StructuredData::new(
        0,
        identifier,
        5,
        vec![],
        owner_keys.clone(),
        vec![],
        None,
        true,
    )
    .unwrap();

    // Same version, a too-small step, and a too-large step are all refused
    // structurally, before any signature is looked at.
    for wrong_version in [5u64, 4, 7, 500] {
        let candidate = StructuredData::new(
            0,
            identifier,
            wrong_version,
            vec![],
            owner_keys.clone(),
            vec![],
            Some(&keys.1),
            true,
        )
        .unwrap();
        assert_eq!(
            stored.validate_self_against_successor(&candidate),
            Err(Error::Signature)
        );
    }

    // The exact step of one is accepted.
    let candidate = StructuredData::new(
        0,
        identifier,
        6,
        vec![],
        owner_keys.clone(),
        vec![],
        Some(&keys.1),
        true,
    )
    .unwrap();
    assert_eq!(stored.validate_self_against_successor(&candidate), Ok(()));
}

#[test]
fn duplicate_signatures_are_refused() {
    let keys = sd_keypair();
    let other = sd_keypair();
    let owner_keys = vec![keys.0, other.0];

    let mut structured_data = StructuredData::new(
        0,
        rand::random(),
        0,
        vec![],
        owner_keys.clone(),
        vec![],
        Some(&keys.1),
        true,
    )
    .unwrap();
    // Signing twice with the same key produces the identical signature bytes,
    // and the byte-identical duplicate invalidates the whole list.
    assert!(structured_data.add_signature(&keys.1).is_ok());
    assert_eq!(
        structured_data.verify_previous_owner_signatures(&owner_keys),
        Err(Error::Validation)
    );
}

#[test]
fn invalid_replace_leaves_record_unchanged() {
    let keys = sd_keypair();
    let owner_keys = vec![keys.0];
    let identifier: [u8; 32] = rand::random();

    let mut stored = StructuredData::new(
        3,
        identifier,
        0,
        vec![1, 2, 3],
        owner_keys.clone(),
        vec![],
        Some(&keys.1),
        true,
    )
    .unwrap();
    let snapshot = stored.clone();

    // The candidate skips a version, so it is structurally invalid.
    let candidate = StructuredData::new(
        3,
        identifier,
        2,
        vec![9, 9, 9],
        owner_keys.clone(),
        vec![],
        Some(&keys.1),
        true,
    )
    .unwrap();
    assert_eq!(
        stored.replace_with_other(candidate),
        Err(Error::Signature)
    );

    // Every field is byte-for-byte what it was before the call.
    assert_eq!(stored.get_type_tag(), snapshot.get_type_tag());
    assert_eq!(stored.name(), snapshot.name());
    assert_eq!(stored.get_data(), snapshot.get_data());
    assert_eq!(
        stored.get_previous_owner_keys(),
        snapshot.get_previous_owner_keys()
    );
    assert_eq!(stored.get_version(), snapshot.get_version());
    assert_eq!(stored.get_owner_keys(), snapshot.get_owner_keys());
    assert_eq!(
        stored.get_previous_owner_signatures(),
        snapshot.get_previous_owner_signatures()
    );
    assert_eq!(stored.ledger(), snapshot.ledger());
    assert_eq!(stored, snapshot);
}

#[test]
fn canonical_payload_exact_bytes() {
    let keys = sd_keypair();
    let name: [u8; 32] = [7; 32];

    let structured_data = StructuredData::new(
        10,
        name,
        255,
        vec![1, 2, 3],
        vec![keys.0],
        vec![],
        None,
        true,
    )
    .unwrap();

    let mut expected: Vec<u8> = Vec::new();
    // type tag "10" as decimal text, length-prefixed
    expected.extend_from_slice(&2u64.to_le_bytes());
    expected.extend_from_slice(b"10");
    // the 32 name bytes
    expected.extend_from_slice(&name);
    // the data, length-prefixed
    expected.extend_from_slice(&3u64.to_le_bytes());
    expected.extend_from_slice(&[1, 2, 3]);
    // no previous owner keys
    expected.extend_from_slice(&0u64.to_le_bytes());
    // one current owner key of 32 bytes
    expected.extend_from_slice(&1u64.to_le_bytes());
    expected.extend_from_slice(&keys.0.bytes);
    // version "255" as decimal text, length-prefixed
    expected.extend_from_slice(&3u64.to_le_bytes());
    expected.extend_from_slice(b"255");

    assert_eq!(structured_data.data_to_sign(), expected);
}

#[test]
fn replace_signatures_overwrites() {
    let keys = sd_keypair();
    let owner_keys = vec![keys.0];

    let mut structured_data = StructuredData::new(
        0,
        rand::random(),
        0,
        vec![],
        owner_keys.clone(),
        vec![],
        Some(&keys.1),
        true,
    )
    .unwrap();
    assert_eq!(structured_data.get_previous_owner_signatures().len(), 1);
    structured_data.replace_signatures(vec![]);
    assert_eq!(structured_data.get_previous_owner_signatures().len(), 0);
    assert_eq!(
        structured_data.verify_previous_owner_signatures(&owner_keys),
        Err(Error::Validation)
    );
}

#[test]
fn accessors_match_the_built_record() {
    let keys = sd_keypair();
    let prev = sd_keypair();
    let name: [u8; 32] = rand::random();

    let structured_data = StructuredData::new(
        42,
        name,
        9,
        vec![5, 6],
        vec![keys.0],
        vec![prev.0],
        None,
        false,
    )
    .unwrap();
    assert_eq!(structured_data.get_type_tag(), 42);
    assert_eq!(structured_data.name(), &name);
    assert_eq!(structured_data.get_version(), 9);
    assert_eq!(structured_data.version(), 9);
    assert_eq!(structured_data.get_data(), &vec![5, 6]);
    assert_eq!(structured_data.payload_size(), 2);
    assert_eq!(structured_data.get_owner_keys(), &vec![keys.0]);
    assert_eq!(structured_data.get_previous_owner_keys(), &vec![prev.0]);
    assert!(!structured_data.ledger());
}
