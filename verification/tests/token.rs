use quantum_custody::identity::Identity;
use quantum_custody::token::{
    burn_tokens, initialize_token, mint_tokens, transfer_quantum_safe, BurnTokens,
    InitializeToken, MintTokens, QuantumTransferEvent, TokenBurnedEvent, TokenError, TokenInfo,
    TokenInitializedEvent, TokenInstruction, TokenMintedEvent, TransferQuantumSafe, DECIMALS,
    MIN_QUANTUM_SIGNATURE_SIZE, TOTAL_SUPPLY,
};

fn identity(byte: u8) -> Identity {
    Identity::new([byte; 32])
}

fn token() -> TokenInfo {
    let ctx = InitializeToken { mint: identity(1), authority: identity(2), bump: 3 };
    initialize_token(&ctx, "Quantum".to_string(), "QNT".to_string(), "https://q".to_string(), 900)
        .0
}

#[test]
fn initialize_token_builds_the_record() {
    let ctx = InitializeToken { mint: identity(1), authority: identity(2), bump: 3 };
    let (info, event) = initialize_token(
        &ctx,
        "Quantum".to_string(),
        "QNT".to_string(),
        "https://q".to_string(),
        900,
    );
    assert_eq!(
        info,
        TokenInfo {
            authority: identity(2),
            mint: identity(1),
            name: "Quantum".to_string(),
            symbol: "QNT".to_string(),
            uri: "https://q".to_string(),
            total_supply: 2_100_000_000_000_000,
            circulating_supply: 0,
            decimals: 9,
            is_paused: false,
            is_quantum_secured: true,
            created_at: 900,
            bump: 3,
        }
    );
    assert_eq!(
        event,
        TokenInitializedEvent {
            mint: identity(1),
            authority: identity(2),
            total_supply: 2_100_000_000_000_000,
            timestamp: 900,
        }
    );
    assert_eq!(TOTAL_SUPPLY, 2_100_000_000_000_000);
    assert_eq!(DECIMALS, 9);
    assert_eq!(MIN_QUANTUM_SIGNATURE_SIZE, 32);
    assert_eq!(TokenInfo::SPACE, 428);
}

#[test]
fn mint_tokens_adds_to_the_circulation() {
    let mut ctx = MintTokens { token_info: token(), mint: identity(1), destination: identity(4) };
    let (instruction, event) = mint_tokens(&mut ctx, 1_000, 901).unwrap();
    assert_eq!(
        instruction,
        TokenInstruction::MintTo { mint: identity(1), to: identity(4), amount: 1_000 }
    );
    assert_eq!(
        event,
        TokenMintedEvent {
            mint: identity(1),
            recipient: identity(4),
            amount: 1_000,
            circulating_supply: 1_000,
            timestamp: 901,
        }
    );
    assert_eq!(ctx.token_info, TokenInfo { circulating_supply: 1_000, ..token() });
    let (_, event) = mint_tokens(&mut ctx, TOTAL_SUPPLY - 1_000, 902).unwrap();
    assert_eq!(event.circulating_supply, TOTAL_SUPPLY);
    assert_eq!(ctx.token_info.circulating_supply, TOTAL_SUPPLY);
}

#[test]
fn mint_tokens_stops_at_the_total_supply() {
    let mut ctx = MintTokens { token_info: token(), mint: identity(1), destination: identity(4) };
    ctx.token_info.circulating_supply = 5;
    let before = ctx.clone();
    assert_eq!(mint_tokens(&mut ctx, TOTAL_SUPPLY - 4, 901), Err(TokenError::ExceedsTotalSupply));
    assert_eq!(mint_tokens(&mut ctx, u64::MAX, 901), Err(TokenError::ExceedsTotalSupply));
    assert_eq!(mint_tokens(&mut ctx, u64::MAX - 4, 901), Err(TokenError::ExceedsTotalSupply));
    assert_eq!(ctx, before);
    assert!(mint_tokens(&mut ctx, TOTAL_SUPPLY - 5, 901).is_ok());
    assert!(mint_tokens(&mut ctx, 0, 901).is_ok());
    assert_eq!(mint_tokens(&mut ctx, 1, 901), Err(TokenError::ExceedsTotalSupply));
}

#[test]
fn a_paused_token_does_nothing() {
    let mut paused = token();
    paused.is_paused = true;
    paused.circulating_supply = 10;
    let mut mint = MintTokens { token_info: paused.clone(), mint: identity(1), destination: identity(4) };
    assert_eq!(mint_tokens(&mut mint, 1, 901), Err(TokenError::TokenPaused));
    assert_eq!(mint_tokens(&mut mint, u64::MAX, 901), Err(TokenError::TokenPaused));
    assert_eq!(mint.token_info, paused);
    let mut burn = BurnTokens { token_info: paused.clone(), mint: identity(1), from: identity(4) };
    assert_eq!(burn_tokens(&mut burn, 1, 901), Err(TokenError::TokenPaused));
    assert_eq!(burn.token_info, paused);
    let mut unsecured = paused.clone();
    unsecured.is_quantum_secured = false;
    let transfer = TransferQuantumSafe { token_info: unsecured, from: identity(4), to: identity(5) };
    assert_eq!(transfer_quantum_safe(&transfer, 1, Vec::new(), 901), Err(TokenError::TokenPaused));
}

#[test]
fn a_transfer_needs_a_secured_token_and_32_bytes_of_signature() {
    let mut ctx = TransferQuantumSafe { token_info: token(), from: identity(4), to: identity(5) };
    assert_eq!(
        transfer_quantum_safe(&ctx, 7, vec![0u8; 31], 901),
        Err(TokenError::InvalidQuantumSignature)
    );
    assert_eq!(
        transfer_quantum_safe(&ctx, 7, Vec::new(), 901),
        Err(TokenError::InvalidQuantumSignature)
    );
    let expected = (
        TokenInstruction::Transfer { from: identity(4), to: identity(5), amount: 7 },
        QuantumTransferEvent {
            from: identity(4),
            to: identity(5),
            amount: 7,
            quantum_secured: true,
            timestamp: 901,
        },
    );
    assert_eq!(transfer_quantum_safe(&ctx, 7, vec![0u8; 32], 901), Ok(expected));
    assert_eq!(transfer_quantum_safe(&ctx, 7, vec![0u8; 4627], 901), Ok(expected));
    ctx.token_info.is_quantum_secured = false;
    assert_eq!(
        transfer_quantum_safe(&ctx, 7, vec![0u8; 32], 901),
        Err(TokenError::QuantumSecurityRequired)
    );
    assert_eq!(
        transfer_quantum_safe(&ctx, 7, Vec::new(), 901),
        Err(TokenError::QuantumSecurityRequired)
    );
}

#[test]
fn burn_tokens_takes_from_the_circulation_and_stops_at_nothing() {
    let mut ctx = BurnTokens { token_info: token(), mint: identity(1), from: identity(4) };
    ctx.token_info.circulating_supply = 100;
    let (instruction, event) = burn_tokens(&mut ctx, 30, 901).unwrap();
    assert_eq!(instruction, TokenInstruction::Burn { mint: identity(1), from: identity(4), amount: 30 });
    assert_eq!(
        event,
        TokenBurnedEvent {
            mint: identity(1),
            from: identity(4),
            amount: 30,
            circulating_supply: 70,
            timestamp: 901,
        }
    );
    assert_eq!(ctx.token_info, TokenInfo { circulating_supply: 70, ..token() });
    let (_, event) = burn_tokens(&mut ctx, 71, 902).unwrap();
    assert_eq!(event.circulating_supply, 0);
    assert_eq!(ctx.token_info.circulating_supply, 0);
    let (_, event) = burn_tokens(&mut ctx, u64::MAX, 903).unwrap();
    assert_eq!(event.circulating_supply, 0);
}

#[test]
fn every_token_failure_has_its_text() {
    assert_eq!(TokenError::TokenPaused.message(), "Token transfers are currently paused");
    assert_eq!(TokenError::ExceedsTotalSupply.message(), "Amount exceeds total supply");
    assert_eq!(
        TokenError::QuantumSecurityRequired.message(),
        "Quantum security verification required"
    );
    assert_eq!(TokenError::InvalidQuantumSignature.message(), "Invalid quantum signature");
}
