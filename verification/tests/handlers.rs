use quantum_custody::catalog::CryptoAlgorithm;
use quantum_custody::error::QuantumCustodyError;
use quantum_custody::identity::Identity;
use quantum_custody::instructions::{create_vault, initialize, rotate_keys, sign_transaction};
use quantum_custody::program::{CreateVault, Initialize, RotateKeys, SignTransaction};
use quantum_custody::state::{GlobalState, QuantumVault};

fn identity(byte: u8) -> Identity {
    Identity::new([byte; 32])
}

fn sphincs_vault() -> QuantumVault {
    let mut ctx = CreateVault {
        vault: None,
        vault_key: identity(50),
        vault_bump: 1,
        owner: identity(1),
        global_state: GlobalState::new(identity(9), 0),
    };
    create_vault::handler(&mut ctx, 3, vec![0u8; 32], 500).unwrap();
    ctx.vault.unwrap()
}

#[test]
fn the_initialize_handler_fills_the_empty_record() {
    let mut ctx = Initialize { global_state: None, bump: 255 };
    let event = initialize::handler(&mut ctx, identity(7), -1);
    assert_eq!(event.authority, identity(7));
    assert_eq!(event.timestamp, -1);
    assert_eq!(ctx.global_state, Some(GlobalState::new(identity(7), 255)));
}

#[test]
fn the_create_handler_reports_the_new_vault() {
    let mut ctx = CreateVault {
        vault: None,
        vault_key: identity(50),
        vault_bump: 1,
        owner: identity(1),
        global_state: GlobalState::new(identity(9), 0),
    };
    let event = create_vault::handler(&mut ctx, 6, vec![0u8; 32], 500).unwrap();
    assert_eq!(event.vault, identity(50));
    assert_eq!(event.owner, identity(1));
    assert_eq!(event.algorithm, CryptoAlgorithm::SphincsShake128f);
    assert_eq!(event.timestamp, 500);
    let vault = ctx.vault.unwrap();
    assert_eq!(vault.owner, identity(1));
    assert_eq!(vault.bump, 1);
    assert!(vault.compliance_status.nist_fips_205_compliant);
    assert_eq!(ctx.global_state.total_vaults, 1);
}

#[test]
fn the_handlers_leave_ownership_to_the_caller() {
    let mut rotate = RotateKeys { vault: sphincs_vault(), vault_key: identity(50), owner: identity(2) };
    let event = rotate_keys::handler(&mut rotate, vec![1u8; 32], vec![0u8; 7856], 600).unwrap();
    assert_eq!(event.vault, identity(50));
    assert_eq!(event.timestamp, 600);
    assert_eq!(rotate.vault.public_key, vec![1u8; 32]);
    let mut sign = SignTransaction {
        vault: rotate.vault,
        vault_key: identity(50),
        owner: identity(2),
        global_state: GlobalState::new(identity(9), 0),
    };
    let event = sign_transaction::handler(&mut sign, vec![1, 2], vec![0u8; 7856], 700).unwrap();
    assert_eq!(event.transaction_count, 1);
    assert_eq!(event.algorithm, CryptoAlgorithm::SphincsSha2128s);
    assert_eq!(sign.vault.transaction_count, 1);
    assert_eq!(sign.global_state.total_transactions, 1);
}

#[test]
fn the_handlers_refuse_what_the_operations_refuse() {
    let mut rotate = RotateKeys { vault: sphincs_vault(), vault_key: identity(50), owner: identity(1) };
    assert_eq!(
        rotate_keys::handler(&mut rotate, vec![1u8; 31], vec![0u8; 7856], 600),
        Err(QuantumCustodyError::InvalidPublicKeySize)
    );
    assert_eq!(
        rotate_keys::handler(&mut rotate, vec![1u8; 32], vec![0u8; 7855], 600),
        Err(QuantumCustodyError::InvalidSignatureSize)
    );
    let mut sign = SignTransaction {
        vault: sphincs_vault(),
        vault_key: identity(50),
        owner: identity(1),
        global_state: GlobalState::new(identity(9), 0),
    };
    assert_eq!(
        sign_transaction::handler(&mut sign, vec![1], vec![0u8; 7856], 500 + 7_776_001),
        Err(QuantumCustodyError::KeyRotationRequired)
    );
    assert_eq!(
        sign_transaction::handler(&mut sign, vec![1], vec![0u8; 7857], 501),
        Err(QuantumCustodyError::InvalidSignatureSize)
    );
    assert_eq!(
        sign_transaction::handler(&mut sign, vec![1; 10_241], vec![0u8; 7856], 501),
        Err(QuantumCustodyError::MessageTooLarge)
    );
    sign.vault.transaction_count = u64::MAX;
    assert_eq!(
        sign_transaction::handler(&mut sign, vec![1], vec![0u8; 7856], 501),
        Err(QuantumCustodyError::MathOverflow)
    );
    let mut create = CreateVault {
        vault: Some(sphincs_vault()),
        vault_key: identity(50),
        vault_bump: 1,
        owner: identity(1),
        global_state: GlobalState::new(identity(9), 0),
    };
    assert_eq!(
        create_vault::handler(&mut create, 3, vec![0u8; 32], 500),
        Err(QuantumCustodyError::VaultAlreadyInitialized)
    );
    assert_eq!(
        create_vault::handler(&mut create, 11, vec![0u8; 32], 500),
        Err(QuantumCustodyError::InvalidAlgorithm)
    );
    assert_eq!(create.global_state.total_vaults, 0);
}
