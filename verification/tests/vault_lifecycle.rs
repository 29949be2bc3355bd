use quantum_custody::catalog::CryptoAlgorithm;
use quantum_custody::error::QuantumCustodyError;
use quantum_custody::identity::Identity;
use quantum_custody::instructions::create_vault::VaultCreatedEvent;
use quantum_custody::instructions::initialize::ProgramInitializedEvent;
use quantum_custody::instructions::rotate_keys::KeyRotatedEvent;
use quantum_custody::instructions::sign_transaction::TransactionSignedEvent;
use quantum_custody::program::{
    create_vault, initialize, rotate_keys, sign_transaction, CreateVault, Initialize, RotateKeys,
    SignTransaction,
};
use quantum_custody::state::{ComplianceStatus, GlobalState, QuantumVault, ROTATION_PERIOD};

fn identity(byte: u8) -> Identity {
    Identity::new([byte; 32])
}

fn registry() -> GlobalState {
    GlobalState::new(identity(9), 254)
}

fn empty_record(owner: Identity) -> CreateVault {
    CreateVault {
        vault: None,
        vault_key: identity(200),
        vault_bump: 7,
        owner,
        global_state: registry(),
    }
}

fn vault_of(code: u8, now: i64) -> QuantumVault {
    let id = CryptoAlgorithm::from_numeric_code(code).unwrap();
    let mut ctx = empty_record(identity(1));
    create_vault(&mut ctx, code, vec![5u8; id.public_key_size()], now).unwrap();
    ctx.vault.unwrap()
}

fn signing(vault: QuantumVault) -> SignTransaction {
    SignTransaction {
        owner: vault.owner,
        vault,
        vault_key: identity(200),
        global_state: registry(),
    }
}

fn rotating(vault: QuantumVault) -> RotateKeys {
    RotateKeys { owner: vault.owner, vault, vault_key: identity(200) }
}

#[test]
fn initialize_sets_the_registry_up_with_both_counters_at_zero() {
    let mut ctx = Initialize { global_state: None, bump: 3 };
    let event = initialize(&mut ctx, identity(4), 1_700_000_000);
    assert_eq!(event, ProgramInitializedEvent { authority: identity(4), timestamp: 1_700_000_000 });
    assert_eq!(
        ctx.global_state,
        Some(GlobalState {
            authority: identity(4),
            total_vaults: 0,
            total_transactions: 0,
            bump: 3
        })
    );
    assert_eq!(ctx.bump, 3);
}

#[test]
fn create_vault_fills_the_record_and_counts_the_vault() {
    let mut ctx = empty_record(identity(1));
    let event = create_vault(&mut ctx, 1, vec![5u8; 1952], 1_700_000_000).unwrap();
    assert_eq!(
        event,
        VaultCreatedEvent {
            vault: identity(200),
            owner: identity(1),
            algorithm: CryptoAlgorithm::Dilithium3,
            timestamp: 1_700_000_000,
        }
    );
    assert_eq!(
        ctx.vault,
        Some(QuantumVault {
            owner: identity(1),
            algorithm: CryptoAlgorithm::Dilithium3,
            public_key: vec![5u8; 1952],
            created_at: 1_700_000_000,
            last_key_rotation: 1_700_000_000,
            transaction_count: 0,
            compliance_status: ComplianceStatus {
                nist_fips_203_compliant: false,
                nist_fips_204_compliant: true,
                nist_fips_205_compliant: false,
                last_audit: 1_700_000_000,
                quantum_readiness_score: 75,
            },
            bump: 7,
        })
    );
    assert_eq!(ctx.global_state.total_vaults, 1);
    assert_eq!(ctx.global_state.total_transactions, 0);
}

#[test]
fn create_vault_refuses_a_key_of_the_wrong_length() {
    for (code, length) in [(0u8, 1311usize), (0, 1313), (2, 0), (7, 1184), (3, 33)] {
        let mut ctx = empty_record(identity(1));
        let before = ctx.clone();
        assert_eq!(
            create_vault(&mut ctx, code, vec![0u8; length], 10),
            Err(QuantumCustodyError::InvalidPublicKeySize)
        );
        assert_eq!(ctx, before);
        assert_eq!(ctx.vault, None);
        assert_eq!(ctx.global_state.total_vaults, 0);
    }
}

#[test]
fn create_vault_refuses_an_unknown_algorithm_before_it_looks_at_the_key() {
    let mut ctx = empty_record(identity(1));
    let before = ctx.clone();
    assert_eq!(
        create_vault(&mut ctx, 10, vec![0u8; 1312], 10),
        Err(QuantumCustodyError::InvalidAlgorithm)
    );
    assert_eq!(
        create_vault(&mut ctx, 255, Vec::new(), 10),
        Err(QuantumCustodyError::InvalidAlgorithm)
    );
    assert_eq!(ctx, before);
}

#[test]
fn create_vault_twice_fails_the_second_time() {
    let mut ctx = empty_record(identity(1));
    assert!(create_vault(&mut ctx, 8, vec![1u8; 1184], 10).is_ok());
    let after_first = ctx.clone();
    assert_eq!(
        create_vault(&mut ctx, 8, vec![1u8; 1184], 11),
        Err(QuantumCustodyError::VaultAlreadyInitialized)
    );
    assert_eq!(ctx, after_first);
    assert_eq!(ctx.global_state.total_vaults, 1);
    assert_eq!(
        create_vault(&mut ctx, 0, vec![2u8; 1312], 12),
        Err(QuantumCustodyError::VaultAlreadyInitialized)
    );
    assert_eq!(ctx.global_state.total_vaults, 1);
}

#[test]
fn create_vault_checks_the_key_before_the_record() {
    let mut ctx = empty_record(identity(1));
    assert!(create_vault(&mut ctx, 8, vec![1u8; 1184], 10).is_ok());
    assert_eq!(
        create_vault(&mut ctx, 8, vec![1u8; 1183], 11),
        Err(QuantumCustodyError::InvalidPublicKeySize)
    );
}

#[test]
fn create_vault_fails_when_the_registry_cannot_count_on() {
    let mut ctx = empty_record(identity(1));
    ctx.global_state.total_vaults = u64::MAX;
    let before = ctx.clone();
    assert_eq!(
        create_vault(&mut ctx, 8, vec![1u8; 1184], 10),
        Err(QuantumCustodyError::MathOverflow)
    );
    assert_eq!(ctx, before);
    ctx.global_state.total_vaults = u64::MAX - 1;
    assert!(create_vault(&mut ctx, 8, vec![1u8; 1184], 10).is_ok());
    assert_eq!(ctx.global_state.total_vaults, u64::MAX);
}

#[test]
fn a_new_vault_has_exactly_the_flag_of_its_family() {
    for code in 0u8..10 {
        let status = vault_of(code, 77).compliance_status;
        let flags = [
            status.nist_fips_203_compliant,
            status.nist_fips_204_compliant,
            status.nist_fips_205_compliant,
        ];
        let expected = match code {
            0..=2 => [false, true, false],
            3..=6 => [false, false, true],
            _ => [true, false, false],
        };
        assert_eq!(flags, expected);
        assert_eq!(status.quantum_readiness_score, 75);
        assert_eq!(status.last_audit, 77);
    }
}

#[test]
fn compliance_status_starts_blank_and_scores_by_fives() {
    assert_eq!(
        ComplianceStatus::default(),
        ComplianceStatus {
            nist_fips_203_compliant: false,
            nist_fips_204_compliant: false,
            nist_fips_205_compliant: false,
            last_audit: 0,
            quantum_readiness_score: 0,
        }
    );
    let initial = ComplianceStatus::initial(CryptoAlgorithm::SphincsShake128f, -5);
    assert_eq!(
        initial,
        ComplianceStatus {
            nist_fips_203_compliant: false,
            nist_fips_204_compliant: false,
            nist_fips_205_compliant: true,
            last_audit: -5,
            quantum_readiness_score: 75,
        }
    );
    assert_eq!(initial.after_rotation(), ComplianceStatus { quantum_readiness_score: 80, ..initial });
    for (score, next) in [(0u8, 5u8), (94, 99), (95, 100), (96, 100), (100, 100), (250, 100), (255, 100)]
    {
        let status = ComplianceStatus { quantum_readiness_score: score, ..initial };
        assert_eq!(status.after_rotation().quantum_readiness_score, next);
    }
}

#[test]
fn rotate_keys_replaces_the_key_and_raises_the_score() {
    let mut ctx = rotating(vault_of(0, 1_000));
    let event = rotate_keys(&mut ctx, vec![8u8; 1312], vec![0u8; 2420], 2_000).unwrap();
    assert_eq!(event, KeyRotatedEvent { vault: identity(200), timestamp: 2_000 });
    assert_eq!(ctx.vault.public_key, vec![8u8; 1312]);
    assert_eq!(ctx.vault.last_key_rotation, 2_000);
    assert_eq!(ctx.vault.created_at, 1_000);
    assert_eq!(ctx.vault.transaction_count, 0);
    assert_eq!(ctx.vault.compliance_status.quantum_readiness_score, 80);
    assert_eq!(ctx.vault.compliance_status.last_audit, 1_000);
    assert!(ctx.vault.compliance_status.nist_fips_204_compliant);
    assert!(!ctx.vault.compliance_status.nist_fips_203_compliant);
    assert!(!ctx.vault.compliance_status.nist_fips_205_compliant);
}

#[test]
fn six_rotations_from_75_end_at_100() {
    let mut ctx = rotating(vault_of(7, 0));
    let expected = [80u8, 85, 90, 95, 100, 100, 100];
    for (round, score) in expected.iter().enumerate() {
        rotate_keys(&mut ctx, vec![round as u8; 800], Vec::new(), round as i64 + 1).unwrap();
        assert_eq!(ctx.vault.compliance_status.quantum_readiness_score, *score);
        assert_eq!(ctx.vault.public_key, vec![round as u8; 800]);
    }
}

#[test]
fn rotate_keys_checks_the_key_and_then_the_signature() {
    let mut ctx = rotating(vault_of(0, 1_000));
    let before = ctx.clone();
    assert_eq!(
        rotate_keys(&mut ctx, vec![8u8; 1311], vec![0u8; 2420], 2_000),
        Err(QuantumCustodyError::InvalidPublicKeySize)
    );
    assert_eq!(
        rotate_keys(&mut ctx, vec![8u8; 1311], vec![0u8; 1], 2_000),
        Err(QuantumCustodyError::InvalidPublicKeySize)
    );
    assert_eq!(
        rotate_keys(&mut ctx, vec![8u8; 1312], vec![0u8; 2421], 2_000),
        Err(QuantumCustodyError::InvalidSignatureSize)
    );
    assert_eq!(
        rotate_keys(&mut ctx, vec![8u8; 1312], Vec::new(), 2_000),
        Err(QuantumCustodyError::InvalidSignatureSize)
    );
    assert_eq!(ctx, before);
}

#[test]
fn only_the_owner_rotates_and_signs() {
    let mut rotate = rotating(vault_of(0, 1_000));
    rotate.owner = identity(2);
    let before = rotate.clone();
    assert_eq!(
        rotate_keys(&mut rotate, vec![8u8; 1312], vec![0u8; 2420], 2_000),
        Err(QuantumCustodyError::Unauthorized)
    );
    assert_eq!(rotate, before);
    let mut sign = signing(vault_of(0, 1_000));
    let mut other = [1u8; 32];
    other[31] = 0;
    sign.owner = Identity::new(other);
    let before = sign.clone();
    assert_eq!(
        sign_transaction(&mut sign, vec![1, 2, 3], vec![0u8; 2420], 2_000),
        Err(QuantumCustodyError::Unauthorized)
    );
    assert_eq!(sign, before);
}

#[test]
fn sign_transaction_counts_one_per_success() {
    let mut ctx = signing(vault_of(0, 1_000));
    for round in 1u64..=3 {
        let event = sign_transaction(&mut ctx, vec![1, 2, 3], vec![0u8; 2420], 1_500).unwrap();
        assert_eq!(
            event,
            TransactionSignedEvent {
                vault: identity(200),
                transaction_count: round,
                algorithm: CryptoAlgorithm::Dilithium2,
                timestamp: 1_500,
            }
        );
        assert_eq!(ctx.vault.transaction_count, round);
        assert_eq!(ctx.global_state.total_transactions, round);
    }
    assert_eq!(ctx.global_state.total_vaults, 0);
    assert_eq!(ctx.vault.compliance_status.quantum_readiness_score, 75);
    assert_eq!(ctx.vault.public_key, vec![5u8; 1312]);
}

#[test]
fn sign_transaction_is_blocked_once_the_key_is_overdue() {
    let mut ctx = signing(vault_of(0, 1_000));
    let before = ctx.clone();
    assert_eq!(
        sign_transaction(&mut ctx, vec![1], vec![0u8; 2420], 1_000 + 7_776_001),
        Err(QuantumCustodyError::KeyRotationRequired)
    );
    assert_eq!(
        sign_transaction(&mut ctx, vec![1; 20_000], vec![0u8; 1], i64::MAX),
        Err(QuantumCustodyError::KeyRotationRequired)
    );
    assert_eq!(ctx, before);
    assert!(sign_transaction(&mut ctx, vec![1], vec![0u8; 2420], 1_000 + 7_776_000).is_ok());
    assert!(sign_transaction(&mut ctx, vec![1], vec![0u8; 2420], 0).is_ok());
    assert!(sign_transaction(&mut ctx, vec![1], vec![0u8; 2420], i64::MIN).is_ok());
}

#[test]
fn a_rotation_lifts_the_block() {
    let vault = vault_of(0, 1_000);
    let late = 1_000 + ROTATION_PERIOD + 1;
    let mut sign = signing(vault.clone());
    assert_eq!(
        sign_transaction(&mut sign, vec![1], vec![0u8; 2420], late),
        Err(QuantumCustodyError::KeyRotationRequired)
    );
    let mut rotate = rotating(vault);
    rotate_keys(&mut rotate, vec![8u8; 1312], vec![0u8; 2420], late).unwrap();
    let mut sign = signing(rotate.vault);
    assert!(sign_transaction(&mut sign, vec![1], vec![0u8; 2420], late).is_ok());
}

#[test]
fn key_age_is_measured_without_overflow() {
    let mut vault = vault_of(0, 0);
    assert!(!vault.is_key_rotation_required(7_776_000));
    assert!(vault.is_key_rotation_required(7_776_001));
    vault.last_key_rotation = i64::MIN;
    assert!(vault.is_key_rotation_required(0));
    assert!(vault.is_key_rotation_required(i64::MAX));
    assert!(!vault.is_key_rotation_required(i64::MIN + 7_776_000));
    vault.last_key_rotation = i64::MAX;
    assert!(!vault.is_key_rotation_required(i64::MIN));
    assert!(!vault.is_key_rotation_required(i64::MAX));
}

#[test]
fn sign_transaction_accepts_10240_bytes_and_refuses_10241() {
    let mut ctx = signing(vault_of(0, 1_000));
    assert!(sign_transaction(&mut ctx, vec![0u8; 10_240], vec![0u8; 2420], 1_001).is_ok());
    assert_eq!(ctx.vault.transaction_count, 1);
    let before = ctx.clone();
    assert_eq!(
        sign_transaction(&mut ctx, vec![0u8; 10_241], vec![0u8; 2420], 1_001),
        Err(QuantumCustodyError::MessageTooLarge)
    );
    assert_eq!(ctx, before);
    assert!(sign_transaction(&mut ctx, Vec::new(), vec![0u8; 2420], 1_001).is_ok());
}

#[test]
fn sign_transaction_checks_the_signature_before_the_message() {
    let mut ctx = signing(vault_of(4, 1_000));
    let before = ctx.clone();
    assert_eq!(
        sign_transaction(&mut ctx, vec![0u8; 10_241], vec![0u8; 17_087], 1_001),
        Err(QuantumCustodyError::InvalidSignatureSize)
    );
    assert_eq!(
        sign_transaction(&mut ctx, vec![0u8; 1], Vec::new(), 1_001),
        Err(QuantumCustodyError::InvalidSignatureSize)
    );
    assert_eq!(ctx, before);
    assert!(sign_transaction(&mut ctx, vec![0u8; 1], vec![0u8; 17_088], 1_001).is_ok());
}

#[test]
fn a_kem_vault_takes_only_the_empty_signature() {
    let mut ctx = signing(vault_of(9, 1_000));
    assert_eq!(
        sign_transaction(&mut ctx, vec![0u8; 1], vec![0u8; 1], 1_001),
        Err(QuantumCustodyError::InvalidSignatureSize)
    );
    assert!(sign_transaction(&mut ctx, vec![0u8; 1], Vec::new(), 1_001).is_ok());
}

#[test]
fn the_count_never_wraps() {
    let mut ctx = signing(vault_of(0, 1_000));
    ctx.vault.transaction_count = u64::MAX - 1;
    assert!(sign_transaction(&mut ctx, vec![1], vec![0u8; 2420], 1_001).is_ok());
    assert_eq!(ctx.vault.transaction_count, u64::MAX);
    let before = ctx.clone();
    for _ in 0..3 {
        assert_eq!(
            sign_transaction(&mut ctx, vec![1], vec![0u8; 2420], 1_001),
            Err(QuantumCustodyError::MathOverflow)
        );
        assert_eq!(ctx, before);
        assert_eq!(ctx.vault.transaction_count, u64::MAX);
    }
}

#[test]
fn a_full_registry_blocks_signing_and_keeps_the_vault() {
    let mut ctx = signing(vault_of(0, 1_000));
    ctx.global_state.total_transactions = u64::MAX;
    let before = ctx.clone();
    assert_eq!(
        sign_transaction(&mut ctx, vec![1], vec![0u8; 2420], 1_001),
        Err(QuantumCustodyError::MathOverflow)
    );
    assert_eq!(ctx, before);
    assert_eq!(ctx.vault.transaction_count, 0);
}

#[test]
fn the_registry_counts_by_one_and_stops_at_the_largest_count() {
    let mut state = registry();
    assert_eq!(state.record_vault_created(), Ok(()));
    assert_eq!(state.record_transaction(), Ok(()));
    assert_eq!(state.record_transaction(), Ok(()));
    assert_eq!(
        state,
        GlobalState { authority: identity(9), total_vaults: 1, total_transactions: 2, bump: 254 }
    );
    state.total_vaults = u64::MAX;
    state.total_transactions = u64::MAX;
    assert_eq!(state.record_vault_created(), Err(QuantumCustodyError::MathOverflow));
    assert_eq!(state.record_transaction(), Err(QuantumCustodyError::MathOverflow));
    assert_eq!(state.total_vaults, u64::MAX);
    assert_eq!(state.total_transactions, u64::MAX);
}

#[test]
fn records_reserve_room_for_the_longest_key() {
    assert_eq!(GlobalState::SPACE, 49);
    assert_eq!(QuantumVault::SPACE, 2686);
}

#[test]
fn identities_are_equal_when_their_bytes_are() {
    let mut bytes = [3u8; 32];
    assert_eq!(Identity::new(bytes), identity(3));
    bytes[0] = 4;
    assert_ne!(Identity::new(bytes), identity(3));
    bytes[0] = 3;
    bytes[31] = 4;
    assert_ne!(Identity::new(bytes), identity(3));
}
