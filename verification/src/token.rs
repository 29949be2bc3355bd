//! The rules in front of the token: what may be minted, moved and burned.
//!
//! The token program itself moves the tokens. Each operation here decides
//! whether the request may go on to the token program, keeps the record of
//! the supply, and returns the instruction for the token program together
//! with the event to publish once that instruction has succeeded. The host
//! keeps the changed record only then.

use vstd::prelude::*;
use crate::identity::Identity;

verus! {

/// The supply that can ever be in circulation, in the smallest unit.
pub const TOTAL_SUPPLY: u64 = 2_100_000_000_000_000;

/// The number of decimal places of the token.
pub const DECIMALS: u8 = 9;

/// The shortest quantum signature that a transfer accepts, in bytes.
pub const MIN_QUANTUM_SIGNATURE_SIZE: usize = 32;

/// Why a token operation was refused.
#[derive(Debug, Clone, Copy, PartialEq, Eq, Structural)]
pub enum TokenError {
    /// The token is paused.
    TokenPaused,
    /// The mint would put more than the total supply in circulation.
    ExceedsTotalSupply,
    /// The token is not quantum-secured.
    QuantumSecurityRequired,
    /// The quantum signature is too short.
    InvalidQuantumSignature,
}

impl TokenError {
    /// The text that describes the failure.
    pub open spec fn spec_message(self) -> Seq<char> {
        match self {
            TokenError::TokenPaused => "Token transfers are currently paused"@,
            TokenError::ExceedsTotalSupply => "Amount exceeds total supply"@,
            TokenError::QuantumSecurityRequired => "Quantum security verification required"@,
            TokenError::InvalidQuantumSignature => "Invalid quantum signature"@,
        }
    }

    /// Returns the text that describes the failure.
    pub fn message(&self) -> (text: &'static str)
        ensures
            text@ == self.spec_message(),
    {
        match self {
            TokenError::TokenPaused => "Token transfers are currently paused",
            TokenError::ExceedsTotalSupply => "Amount exceeds total supply",
            TokenError::QuantumSecurityRequired => "Quantum security verification required",
            TokenError::InvalidQuantumSignature => "Invalid quantum signature",
        }
    }
}

/// The record of the token.
#[derive(Debug, Clone, PartialEq, Eq)]
pub struct TokenInfo {
    pub authority: Identity,
    pub mint: Identity,
    pub name: String,
    pub symbol: String,
    pub uri: String,
    pub total_supply: u64,
    pub circulating_supply: u64,
    pub decimals: u8,
    pub is_paused: bool,
    pub is_quantum_secured: bool,
    pub created_at: i64,
    pub bump: u8,
}

/// The record of the token as a mathematical value.
pub struct TokenInfoView {
    pub authority: Identity,
    pub mint: Identity,
    pub name: Seq<char>,
    pub symbol: Seq<char>,
    pub uri: Seq<char>,
    pub total_supply: u64,
    pub circulating_supply: u64,
    pub decimals: u8,
    pub is_paused: bool,
    pub is_quantum_secured: bool,
    pub created_at: i64,
    pub bump: u8,
}

impl View for TokenInfo {
    type V = TokenInfoView;

    open spec fn view(&self) -> TokenInfoView {
        TokenInfoView {
            authority: self.authority,
            mint: self.mint,
            name: self.name@,
            symbol: self.symbol@,
            uri: self.uri@,
            total_supply: self.total_supply,
            circulating_supply: self.circulating_supply,
            decimals: self.decimals,
            is_paused: self.is_paused,
            is_quantum_secured: self.is_quantum_secured,
            created_at: self.created_at,
            bump: self.bump,
        }
    }
}

impl TokenInfo {
    /// Bytes reserved for the persisted record.
    pub const SPACE: usize = 32 + 32 + 64 + 16 + 256 + 8 + 8 + 1 + 1 + 1 + 8 + 1;

    /// What holds of the record from its creation on: the total supply is
    /// the fixed one and no more than it is in circulation.
    pub open spec fn well_formed(&self) -> bool {
        &&& self.total_supply == TOTAL_SUPPLY
        &&& self.circulating_supply <= self.total_supply
        &&& self.decimals == DECIMALS
    }
}

/// What the token program is asked to do once an operation was not
/// refused.
#[derive(Debug, Clone, Copy, PartialEq, Eq)]
pub enum TokenInstruction {
    /// Mint `amount` of `mint` to the account `to`.
    MintTo { mint: Identity, to: Identity, amount: u64 },
    /// Move `amount` from the account `from` to the account `to`.
    Transfer { from: Identity, to: Identity, amount: u64 },
    /// Burn `amount` of `mint` from the account `from`.
    Burn { mint: Identity, from: Identity, amount: u64 },
}

/// What `initialize_token` is handed.
#[derive(Debug, Clone, Copy, PartialEq, Eq)]
pub struct InitializeToken {
    /// The address of the mint.
    pub mint: Identity,
    pub authority: Identity,
    pub bump: u8,
}

/// What `mint_tokens` is handed.
#[derive(Debug, Clone, PartialEq, Eq)]
pub struct MintTokens {
    pub token_info: TokenInfo,
    /// The address of the mint.
    pub mint: Identity,
    /// The address of the account that receives the tokens.
    pub destination: Identity,
}

/// What `transfer_quantum_safe` is handed.
#[derive(Debug, Clone, PartialEq, Eq)]
pub struct TransferQuantumSafe {
    pub token_info: TokenInfo,
    /// The address of the account that pays.
    pub from: Identity,
    /// The address of the account that receives.
    pub to: Identity,
}

/// What `burn_tokens` is handed.
#[derive(Debug, Clone, PartialEq, Eq)]
pub struct BurnTokens {
    pub token_info: TokenInfo,
    /// The address of the mint.
    pub mint: Identity,
    /// The address of the account that the tokens are burned from.
    pub from: Identity,
}

/// Tells that the token was set up.
#[derive(Debug, Clone, Copy, PartialEq, Eq)]
pub struct TokenInitializedEvent {
    pub mint: Identity,
    pub authority: Identity,
    pub total_supply: u64,
    pub timestamp: i64,
}

/// Tells that tokens were minted.
#[derive(Debug, Clone, Copy, PartialEq, Eq)]
pub struct TokenMintedEvent {
    pub mint: Identity,
    pub recipient: Identity,
    pub amount: u64,
    /// The supply in circulation after the mint.
    pub circulating_supply: u64,
    pub timestamp: i64,
}

/// Tells that tokens were moved under a quantum signature.
#[derive(Debug, Clone, Copy, PartialEq, Eq)]
pub struct QuantumTransferEvent {
    pub from: Identity,
    pub to: Identity,
    pub amount: u64,
    pub quantum_secured: bool,
    pub timestamp: i64,
}

/// Tells that tokens were burned.
#[derive(Debug, Clone, Copy, PartialEq, Eq)]
pub struct TokenBurnedEvent {
    pub mint: Identity,
    pub from: Identity,
    pub amount: u64,
    /// The supply in circulation after the burn.
    pub circulating_supply: u64,
    pub timestamp: i64,
}

/// Why a mint is refused, if it is: the token is paused, or else more than
/// the total supply would be in circulation. The sum is taken over the
/// integers, so a sum that no `u64` holds is refused too.
pub open spec fn mint_refusal(token_info: TokenInfoView, amount: u64) -> Option<TokenError> {
    if token_info.is_paused {
        Some(TokenError::TokenPaused)
    } else if token_info.circulating_supply + amount > TOTAL_SUPPLY {
        Some(TokenError::ExceedsTotalSupply)
    } else {
        None
    }
}

/// Why a transfer is refused, if it is: the token is paused, or else it is
/// not quantum-secured, or else the signature has fewer than 32 bytes.
/// Only the length of the signature is checked.
pub open spec fn transfer_refusal(token_info: TokenInfoView, quantum_signature: Seq<u8>) -> Option<
    TokenError,
> {
    if token_info.is_paused {
        Some(TokenError::TokenPaused)
    } else if !token_info.is_quantum_secured {
        Some(TokenError::QuantumSecurityRequired)
    } else if quantum_signature.len() < MIN_QUANTUM_SIGNATURE_SIZE {
        Some(TokenError::InvalidQuantumSignature)
    } else {
        None
    }
}

/// What is in circulation after `amount` was burned: `amount` less, and
/// nothing where more was burned than there was.
pub open spec fn supply_after_burn(circulating_supply: u64, amount: u64) -> u64 {
    if amount <= circulating_supply {
        (circulating_supply - amount) as u64
    } else {
        0
    }
}

/// Sets the token up at `now`: builds its record, with the fixed total
/// supply, nothing in circulation, not paused, quantum-secured.
pub fn initialize_token(
    ctx: &InitializeToken,
    name: String,
    symbol: String,
    uri: String,
    now: i64,
) -> (created: (TokenInfo, TokenInitializedEvent))
    ensures
        created.0@ == (TokenInfoView {
            authority: ctx.authority,
            mint: ctx.mint,
            name: name@,
            symbol: symbol@,
            uri: uri@,
            total_supply: TOTAL_SUPPLY,
            circulating_supply: 0,
            decimals: DECIMALS,
            is_paused: false,
            is_quantum_secured: true,
            created_at: now,
            bump: ctx.bump,
        }),
        created.0.well_formed(),
        created.1 == (TokenInitializedEvent {
            mint: ctx.mint,
            authority: ctx.authority,
            total_supply: TOTAL_SUPPLY,
            timestamp: now,
        }),
{
    let token_info = TokenInfo {
        authority: ctx.authority,
        mint: ctx.mint,
        name,
        symbol,
        uri,
        total_supply: TOTAL_SUPPLY,
        circulating_supply: 0,
        decimals: DECIMALS,
        is_paused: false,
        is_quantum_secured: true,
        created_at: now,
        bump: ctx.bump,
    };
    let event = TokenInitializedEvent {
        mint: ctx.mint,
        authority: ctx.authority,
        total_supply: TOTAL_SUPPLY,
        timestamp: now,
    };
    (token_info, event)
}

/// Decides on a mint of `amount` at `now`.
///
/// The mint is refused, and the record left as it was, with `TokenPaused`
/// when the token is paused, else with `ExceedsTotalSupply` when
/// `circulating_supply + amount` is more than the total supply. Otherwise
/// `amount` more is in circulation and nothing else has changed; the
/// result is the instruction for the token program and the event.
pub fn mint_tokens(ctx: &mut MintTokens, amount: u64, now: i64) -> (result: Result<
    (TokenInstruction, TokenMintedEvent),
    TokenError,
>)
    ensures
        match mint_refusal(old(ctx).token_info@, amount) {
            Some(error) => result == Err::<(TokenInstruction, TokenMintedEvent), TokenError>(error)
                && *final(ctx) == *old(ctx),
            None => {
                let supply = (old(ctx).token_info.circulating_supply + amount) as u64;
                &&& result == Ok::<(TokenInstruction, TokenMintedEvent), TokenError>(
                    (
                        TokenInstruction::MintTo {
                            mint: old(ctx).mint,
                            to: old(ctx).destination,
                            amount,
                        },
                        TokenMintedEvent {
                            mint: old(ctx).mint,
                            recipient: old(ctx).destination,
                            amount,
                            circulating_supply: supply,
                            timestamp: now,
                        },
                    ),
                )
                &&& *final(ctx) == (MintTokens {
                    token_info: TokenInfo { circulating_supply: supply, ..old(ctx).token_info },
                    ..*old(ctx)
                })
                &&& old(ctx).token_info.well_formed() ==> final(ctx).token_info.well_formed()
            },
        },
{
    if ctx.token_info.is_paused {
        return Err(TokenError::TokenPaused);
    }
    let supply = match ctx.token_info.circulating_supply.checked_add(amount) {
        Some(supply) => supply,
        None => {
            return Err(TokenError::ExceedsTotalSupply);
        },
    };
    if supply > TOTAL_SUPPLY {
        return Err(TokenError::ExceedsTotalSupply);
    }
    ctx.token_info.circulating_supply = supply;
    Ok(
        (
            TokenInstruction::MintTo { mint: ctx.mint, to: ctx.destination, amount },
            TokenMintedEvent {
                mint: ctx.mint,
                recipient: ctx.destination,
                amount,
                circulating_supply: supply,
                timestamp: now,
            },
        ),
    )
}

/// Decides on a transfer of `amount` at `now`.
///
/// The transfer is refused with `TokenPaused` when the token is paused,
/// else with `QuantumSecurityRequired` when the token is not
/// quantum-secured, else with `InvalidQuantumSignature` when
/// `quantum_signature` has fewer than 32 bytes. Otherwise the result is
/// the instruction for the token program and the event. The record is
/// never changed.
pub fn transfer_quantum_safe(
    ctx: &TransferQuantumSafe,
    amount: u64,
    quantum_signature: Vec<u8>,
    now: i64,
) -> (result: Result<(TokenInstruction, QuantumTransferEvent), TokenError>)
    ensures
        match transfer_refusal(ctx.token_info@, quantum_signature@) {
            Some(error) => result == Err::<(TokenInstruction, QuantumTransferEvent), TokenError>(
                error,
            ),
            None => result == Ok::<(TokenInstruction, QuantumTransferEvent), TokenError>(
                (
                    TokenInstruction::Transfer { from: ctx.from, to: ctx.to, amount },
                    QuantumTransferEvent {
                        from: ctx.from,
                        to: ctx.to,
                        amount,
                        quantum_secured: true,
                        timestamp: now,
                    },
                ),
            ),
        },
{
    if ctx.token_info.is_paused {
        return Err(TokenError::TokenPaused);
    }
    if !ctx.token_info.is_quantum_secured {
        return Err(TokenError::QuantumSecurityRequired);
    }
    if quantum_signature.len() < MIN_QUANTUM_SIGNATURE_SIZE {
        return Err(TokenError::InvalidQuantumSignature);
    }
    Ok(
        (
            TokenInstruction::Transfer { from: ctx.from, to: ctx.to, amount },
            QuantumTransferEvent {
                from: ctx.from,
                to: ctx.to,
                amount,
                quantum_secured: true,
                timestamp: now,
            },
        ),
    )
}

/// Decides on a burn of `amount` at `now`.
///
/// The burn is refused, and the record left as it was, with `TokenPaused`
/// when the token is paused. Otherwise `amount` less is in circulation,
/// and nothing where more is burned than was in circulation; nothing else
/// has changed. The result is the instruction for the token program and
/// the event.
pub fn burn_tokens(ctx: &mut BurnTokens, amount: u64, now: i64) -> (result: Result<
    (TokenInstruction, TokenBurnedEvent),
    TokenError,
>)
    ensures
        old(ctx).token_info.is_paused ==> result == Err::<
            (TokenInstruction, TokenBurnedEvent),
            TokenError,
        >(TokenError::TokenPaused) && *final(ctx) == *old(ctx),
        !old(ctx).token_info.is_paused ==> ({
            let supply = supply_after_burn(old(ctx).token_info.circulating_supply, amount);
            &&& result == Ok::<(TokenInstruction, TokenBurnedEvent), TokenError>(
                (
                    TokenInstruction::Burn { mint: old(ctx).mint, from: old(ctx).from, amount },
                    TokenBurnedEvent {
                        mint: old(ctx).mint,
                        from: old(ctx).from,
                        amount,
                        circulating_supply: supply,
                        timestamp: now,
                    },
                ),
            )
            &&& *final(ctx) == (BurnTokens {
                token_info: TokenInfo { circulating_supply: supply, ..old(ctx).token_info },
                ..*old(ctx)
            })
            &&& old(ctx).token_info.well_formed() ==> final(ctx).token_info.well_formed()
        }),
{
    if ctx.token_info.is_paused {
        return Err(TokenError::TokenPaused);
    }
    let supply = ctx.token_info.circulating_supply.saturating_sub(amount);
    ctx.token_info.circulating_supply = supply;
    Ok(
        (
            TokenInstruction::Burn { mint: ctx.mint, from: ctx.from, amount },
            TokenBurnedEvent {
                mint: ctx.mint,
                from: ctx.from,
                amount,
                circulating_supply: supply,
                timestamp: now,
            },
        ),
    )
}

} // verus!
