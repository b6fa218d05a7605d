use solana_sdk::hash::hashv;
use solana_sdk::pubkey::Pubkey as SdkPubkey;
use stake_accounts::pubkey::Pubkey;
use stake_accounts::seed::index_seed;
use stake_accounts::stake_accounts::{
    create_with_seed, derive_stake_account_address, derive_stake_account_addresses, PubkeyError,
    MAX_SEED_LEN,
};

const STAKE_PROGRAM_ID: [u8; 32] = [
    6, 161, 216, 23, 145, 55, 84, 42, 152, 52, 55, 189, 254, 42, 122, 178, 85, 127, 83, 92, 138,
    120, 114, 43, 104, 164, 157, 192, 0, 0, 0, 0,
];

fn digest_of(base: &[u8; 32], seed: &str, program_id: &[u8; 32]) -> [u8; 32] {
    hashv(&[&base[..], seed.as_bytes(), &program_id[..]]).to_bytes()
}

#[test]
fn max_seed_len_is_32() {
    assert_eq!(MAX_SEED_LEN, 32);
}

#[test]
fn stake_program_id_is_the_one_of_the_program() {
    assert_eq!(solana_stake_program::id().to_bytes(), STAKE_PROGRAM_ID);
    assert_eq!(
        solana_stake_program::id().to_string(),
        "Stake11111111111111111111111111111111111111"
    );
}

#[test]
fn create_with_seed_hashes_base_seed_and_program() {
    let mut base = [0u8; 32];
    for (i, b) in base.iter_mut().enumerate() {
        *b = i as u8;
    }
    let program = [9u8; 32];
    let address = create_with_seed(&Pubkey(base), "seed", &Pubkey(program)).unwrap();
    assert_eq!(
        address.to_bytes(),
        [
            196, 4, 60, 162, 86, 197, 6, 84, 233, 82, 2, 153, 65, 137, 200, 247, 180, 254, 175,
            99, 108, 242, 87, 239, 106, 82, 194, 255, 226, 237, 13, 78
        ]
    );
    assert_eq!(address.to_bytes(), digest_of(&base, "seed", &program));
}

#[test]
fn create_with_seed_takes_the_empty_seed() {
    let mut base = [0u8; 32];
    for (i, b) in base.iter_mut().enumerate() {
        *b = i as u8;
    }
    let address = create_with_seed(&Pubkey(base), "", &Pubkey([9u8; 32])).unwrap();
    assert_eq!(
        address.to_bytes(),
        [
            105, 11, 121, 55, 117, 32, 50, 24, 84, 149, 246, 181, 98, 134, 217, 17, 63, 232, 60,
            68, 139, 204, 92, 29, 10, 223, 2, 204, 212, 90, 125, 148
        ]
    );
}

#[test]
fn create_with_seed_agrees_with_the_ledger() {
    let base = [21u8; 32];
    let program = [4u8; 32];
    for seed in ["", "0", "17", "a seed", "0123456789abcdef0123456789abcdef"] {
        let ours = create_with_seed(&Pubkey(base), seed, &Pubkey(program)).unwrap();
        let theirs = SdkPubkey::create_with_seed(
            &SdkPubkey::new_from_array(base),
            seed,
            &SdkPubkey::new_from_array(program),
        )
        .unwrap();
        assert_eq!(ours.to_bytes(), theirs.to_bytes());
    }
}

#[test]
fn seed_of_32_bytes_is_accepted() {
    let seed = "abcdefghijklmnopqrstuvwxyz012345";
    assert_eq!(seed.len(), 32);
    let result = create_with_seed(&Pubkey([1; 32]), seed, &Pubkey([2; 32]));
    assert_eq!(
        result.map(|a| a.to_bytes()),
        Ok(digest_of(&[1; 32], seed, &[2; 32]))
    );
}

#[test]
fn seed_of_33_bytes_is_refused() {
    let seed = "abcdefghijklmnopqrstuvwxyz0123456";
    assert_eq!(seed.len(), 33);
    let result = create_with_seed(&Pubkey([1; 32]), seed, &Pubkey([2; 32]));
    assert_eq!(result, Err(PubkeyError::MaxSeedLengthExceeded));
}

#[test]
fn seed_is_measured_in_bytes() {
    // Sixteen characters of two bytes each: 32 bytes.
    let fits = "éééééééééééééééé";
    assert_eq!(fits.chars().count(), 16);
    assert_eq!(fits.len(), 32);
    let result = create_with_seed(&Pubkey([1; 32]), fits, &Pubkey([2; 32]));
    assert_eq!(
        result.map(|a| a.to_bytes()),
        Ok(digest_of(&[1; 32], fits, &[2; 32]))
    );
    // Seventeen of them: 34 bytes in 17 characters.
    let too_long = "ééééééééééééééééé";
    assert_eq!(too_long.chars().count(), 17);
    assert_eq!(
        create_with_seed(&Pubkey([1; 32]), too_long, &Pubkey([2; 32])),
        Err(PubkeyError::MaxSeedLengthExceeded)
    );
}

#[test]
fn address_at_index_is_deterministic() {
    let base = Pubkey([42; 32]);
    for i in [0usize, 1, 9, 10, 99, 12345, usize::MAX] {
        assert_eq!(
            derive_stake_account_address(&base, i),
            derive_stake_account_address(&base, i)
        );
    }
}

#[test]
fn address_at_index_hashes_the_decimal_index() {
    let base = [7u8; 32];
    assert_eq!(
        derive_stake_account_address(&Pubkey(base), 0).to_bytes(),
        [
            184, 180, 31, 181, 165, 22, 234, 46, 110, 115, 211, 168, 66, 100, 216, 209, 25, 129,
            96, 184, 193, 54, 247, 188, 25, 233, 164, 4, 137, 32, 153, 132
        ]
    );
    assert_eq!(
        derive_stake_account_address(&Pubkey(base), 10).to_bytes(),
        [
            173, 188, 183, 142, 220, 201, 94, 206, 60, 118, 243, 38, 98, 144, 219, 16, 104, 70,
            105, 247, 239, 122, 40, 204, 37, 153, 12, 56, 28, 45, 209, 31
        ]
    );
    assert_eq!(
        derive_stake_account_address(&Pubkey([0; 32]), 0).to_bytes(),
        [
            193, 23, 196, 28, 220, 95, 186, 55, 129, 192, 5, 224, 191, 132, 127, 129, 245, 132, 2,
            248, 67, 141, 111, 18, 153, 162, 214, 19, 149, 161, 177, 57
        ]
    );
}

#[test]
fn address_at_the_largest_index() {
    let base = [5u8; 32];
    let seed = usize::MAX.to_string();
    assert!(seed.len() <= 20);
    assert_eq!(
        derive_stake_account_address(&Pubkey(base), usize::MAX).to_bytes(),
        digest_of(&base, &seed, &STAKE_PROGRAM_ID)
    );
}

#[test]
fn address_at_index_agrees_with_the_ledger() {
    let base = [77u8; 32];
    for i in 0usize..40 {
        let theirs = SdkPubkey::create_with_seed(
            &SdkPubkey::new_from_array(base),
            &i.to_string(),
            &solana_stake_program::id(),
        )
        .unwrap();
        assert_eq!(
            derive_stake_account_address(&Pubkey(base), i).to_bytes(),
            theirs.to_bytes()
        );
    }
}

#[test]
fn three_addresses_in_index_order() {
    let base = [7u8; 32];
    let addresses = derive_stake_account_addresses(&Pubkey(base), 3);
    assert_eq!(
        addresses,
        vec![
            Pubkey(digest_of(&base, "0", &STAKE_PROGRAM_ID)),
            Pubkey(digest_of(&base, "1", &STAKE_PROGRAM_ID)),
            Pubkey(digest_of(&base, "2", &STAKE_PROGRAM_ID)),
        ]
    );
    assert_eq!(
        addresses[1].to_bytes(),
        [
            219, 134, 80, 219, 142, 181, 116, 190, 144, 59, 44, 0, 31, 55, 139, 5, 160, 210, 16,
            104, 59, 173, 200, 162, 150, 50, 76, 13, 104, 221, 53, 226
        ]
    );
    assert_eq!(
        addresses[2].to_bytes(),
        [
            70, 209, 41, 95, 106, 104, 109, 61, 245, 141, 243, 114, 152, 38, 102, 252, 226, 215,
            53, 36, 219, 211, 32, 228, 138, 42, 42, 126, 43, 106, 130, 132
        ]
    );
}

#[test]
fn range_holds_the_address_of_each_index() {
    let base = Pubkey([13; 32]);
    for n in [0usize, 1, 2, 17] {
        let addresses = derive_stake_account_addresses(&base, n);
        assert_eq!(addresses.len(), n);
        for (i, address) in addresses.iter().enumerate() {
            assert_eq!(*address, derive_stake_account_address(&base, i));
        }
    }
}

#[test]
fn range_of_no_accounts_is_empty() {
    assert_eq!(derive_stake_account_addresses(&Pubkey([1; 32]), 0), vec![]);
}

#[test]
fn addresses_of_different_indices_differ() {
    let base = Pubkey([200; 32]);
    let addresses = derive_stake_account_addresses(&base, 120);
    for i in 0..addresses.len() {
        for j in 0..i {
            assert_ne!(addresses[i], addresses[j]);
        }
    }
}

#[test]
fn addresses_of_different_bases_differ() {
    assert_ne!(
        derive_stake_account_address(&Pubkey([1; 32]), 0),
        derive_stake_account_address(&Pubkey([2; 32]), 0)
    );
}

#[test]
fn seed_is_the_decimal_numeral() {
    assert_eq!(index_seed(0), "0");
    assert_eq!(index_seed(7), "7");
    assert_eq!(index_seed(9), "9");
    assert_eq!(index_seed(10), "10");
    assert_eq!(index_seed(11), "11");
    assert_eq!(index_seed(100), "100");
    assert_eq!(index_seed(1234567890), "1234567890");
    assert_eq!(index_seed(9876543210), "9876543210");
    assert_eq!(index_seed(usize::MAX), usize::MAX.to_string());
}

#[test]
fn seed_agrees_with_the_standard_numeral() {
    for i in 0usize..2000 {
        assert_eq!(index_seed(i), i.to_string());
    }
    let mut i: usize = 1;
    while i < usize::MAX / 7 {
        assert_eq!(index_seed(i), i.to_string());
        assert_eq!(index_seed(i - 1), (i - 1).to_string());
        i *= 7;
    }
}

#[test]
fn pubkey_keeps_its_bytes() {
    let mut bytes = [0u8; 32];
    for (i, b) in bytes.iter_mut().enumerate() {
        *b = 255 - i as u8;
    }
    let key = Pubkey::new_from_array(bytes);
    assert_eq!(key.to_bytes(), bytes);
    assert_eq!(key.as_bytes(), &bytes[..]);
    assert_eq!(key, Pubkey(bytes));
    assert_eq!(Pubkey::default().to_bytes(), [0u8; 32]);
}
