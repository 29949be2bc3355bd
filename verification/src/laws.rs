//! What holds of the catalog and of the vault operations, for all inputs.
//!
//! Each law is stated over the same spec functions that the contracts of
//! the operations use.

use vstd::prelude::*;
use crate::catalog::{spec_parameters_of, CryptoAlgorithm};
use crate::error::QuantumCustodyError;
use crate::instructions::create_vault;
use crate::instructions::rotate_keys;
use crate::instructions::sign_transaction;
use crate::program::{CreateVaultView, SignTransactionView};
use crate::sdk::crypto::Algorithm;
use crate::state::{ComplianceStatus, QuantumVault, QuantumVaultView};

verus! {

/// The public-key length of each algorithm, by numeric code.
pub open spec fn public_key_size_table() -> Seq<usize> {
    seq![1312, 1952, 2592, 32, 32, 32, 32, 800, 1184, 1568]
}

/// The signature length of each algorithm, by numeric code; 0 for the
/// key-encapsulation algorithms.
pub open spec fn signature_size_table() -> Seq<usize> {
    seq![2420, 3293, 4595, 7856, 17088, 7856, 17088, 0, 0, 0]
}

/// Every code from 0 to 9 names an algorithm, and the catalog gives that
/// algorithm the key length and the signature length of the tables.
pub proof fn lemma_catalog_follows_the_tables(code: u8)
    requires
        code <= 9,
    ensures
        CryptoAlgorithm::spec_from_numeric_code(code) is Some,
        CryptoAlgorithm::spec_from_numeric_code(code).unwrap().spec_numeric_code() == code,
        spec_parameters_of(
            CryptoAlgorithm::spec_from_numeric_code(code).unwrap(),
        ).public_key_size == public_key_size_table()[code as int],
        spec_parameters_of(
            CryptoAlgorithm::spec_from_numeric_code(code).unwrap(),
        ).signature_size == signature_size_table()[code as int],
{
}

/// The numeric code of an algorithm resolves to that algorithm, and no
/// code above 9 resolves.
pub proof fn lemma_numeric_codes_round_trip(id: CryptoAlgorithm, code: u8)
    ensures
        CryptoAlgorithm::spec_from_numeric_code(id.spec_numeric_code()) == Some(id),
        code > 9 ==> CryptoAlgorithm::spec_from_numeric_code(code) is None,
{
}

/// The client names the algorithms of the catalog. Each of its algorithms
/// has a numeric code that resolves back to it and that names an algorithm
/// of the catalog; the two agree on the security category, and a key pair
/// of the client has a public key of the length that the catalog demands.
pub proof fn lemma_client_names_the_catalog(algorithm: Algorithm, value: u8)
    ensures
        Algorithm::spec_from_u8(algorithm.spec_to_u8()) == Some(algorithm),
        Algorithm::spec_from_u8(value) is Some <==> value <= 9,
        Algorithm::spec_from_u8(value) is Some ==> Algorithm::spec_from_u8(
            value,
        ).unwrap().spec_to_u8() == value,
        CryptoAlgorithm::spec_from_numeric_code(algorithm.spec_to_u8()) is Some,
        ({
            let id = CryptoAlgorithm::spec_from_numeric_code(algorithm.spec_to_u8()).unwrap();
            &&& id.spec_security_level() == algorithm.spec_security_level()
            &&& id.spec_public_key_size() == algorithm.generated_public_key_size()
        }),
{
}

/// No key of the catalog is longer than the room that a persisted vault
/// reserves for it, so a well-formed vault fits in its record.
pub proof fn lemma_vault_fits_its_record(vault: QuantumVaultView)
    requires
        vault.well_formed(),
    ensures
        vault.public_key.len() <= 2592,
        vault.encoded_len() <= QuantumVault::SPACE,
{
}

/// A key of the wrong length for the chosen algorithm is refused with
/// `InvalidPublicKeySize`, whatever the records hold.
pub proof fn lemma_wrong_key_length_is_refused(
    ctx: CreateVaultView,
    algorithm: u8,
    public_key: Seq<u8>,
)
    requires
        algorithm <= 9,
        public_key.len() != CryptoAlgorithm::spec_from_numeric_code(
            algorithm,
        ).unwrap().spec_public_key_size(),
    ensures
        create_vault::refusal(ctx, algorithm, public_key) == Some(
            QuantumCustodyError::InvalidPublicKeySize,
        ),
{
}

/// After a creation the registry has counted exactly one vault more, and a
/// second creation on the same record is refused: with
/// `VaultAlreadyInitialized` when it is asked with the same algorithm and
/// key, and in any case refused.
pub proof fn lemma_vault_is_created_once(
    ctx: CreateVaultView,
    algorithm: u8,
    public_key: Seq<u8>,
    now: i64,
    second_algorithm: u8,
    second_public_key: Seq<u8>,
)
    requires
        create_vault::refusal(ctx, algorithm, public_key) is None,
    ensures
        ({
            let id = CryptoAlgorithm::spec_from_numeric_code(algorithm).unwrap();
            let after = create_vault::created(ctx, id, public_key, now);
            &&& after.global_state.total_vaults == ctx.global_state.total_vaults + 1
            &&& create_vault::refusal(after, algorithm, public_key) == Some(
                QuantumCustodyError::VaultAlreadyInitialized,
            )
            &&& create_vault::refusal(after, second_algorithm, second_public_key) is Some
        }),
{
}

/// A new vault has exactly one of the three flags set, the one of its
/// algorithm's standard, and the score 75.
pub proof fn lemma_new_vault_certifies_one_standard(
    ctx: CreateVaultView,
    algorithm: u8,
    public_key: Seq<u8>,
    now: i64,
)
    requires
        create_vault::refusal(ctx, algorithm, public_key) is None,
    ensures
        ({
            let id = CryptoAlgorithm::spec_from_numeric_code(algorithm).unwrap();
            let status = create_vault::created(
                ctx,
                id,
                public_key,
                now,
            ).vault.unwrap().compliance_status;
            &&& status.flags_set() == 1
            &&& status.certifies(id.spec_standard_family())
            &&& status.nist_fips_203_compliant == (id is Kyber512 || id is Kyber768
                || id is Kyber1024)
            &&& status.nist_fips_204_compliant == (id is Dilithium2 || id is Dilithium3
                || id is Dilithium5)
            &&& status.nist_fips_205_compliant == (id is SphincsSha2128s || id is SphincsSha2128f
                || id is SphincsShake128s || id is SphincsShake128f)
            &&& status.quantum_readiness_score == 75
            &&& status.last_audit == now
        }),
{
}

/// The score after a number of rotations in a row.
pub open spec fn score_after_rotations(score: u8, rotations: nat) -> u8
    decreases rotations,
{
    if rotations == 0 {
        score
    } else {
        ComplianceStatus::rotated_score(score_after_rotations(score, (rotations - 1) as nat))
    }
}

/// Each rotation adds 5 to the score and the score stops at 100: after `n`
/// rotations a score in range stands at the smaller of `score + 5 n` and
/// 100. From 75 it stands at 100 after five rotations and stays there.
pub proof fn lemma_score_grows_by_five_up_to_hundred(score: u8, rotations: nat)
    requires
        score <= 100,
    ensures
        score_after_rotations(score, rotations) == if score + 5 * rotations <= 100 {
            score + 5 * rotations
        } else {
            100
        },
        score == 75 && rotations >= 5 ==> score_after_rotations(score, rotations) == 100,
    decreases rotations,
{
    if rotations > 0 {
        lemma_score_grows_by_five_up_to_hundred(score, (rotations - 1) as nat);
    }
}

/// A rotation moves the score by the rule above and nothing else of the
/// status: the flags set at creation never change, and the score of a
/// well-formed vault never falls. The vault's count stays.
pub proof fn lemma_rotation_moves_only_key_time_and_score(
    vault: QuantumVaultView,
    new_public_key: Seq<u8>,
    now: i64,
)
    ensures
        ({
            let after = rotate_keys::rotated(vault, new_public_key, now);
            &&& after.compliance_status.quantum_readiness_score == score_after_rotations(
                vault.compliance_status.quantum_readiness_score,
                1,
            )
            &&& after.compliance_status.nist_fips_203_compliant
                == vault.compliance_status.nist_fips_203_compliant
            &&& after.compliance_status.nist_fips_204_compliant
                == vault.compliance_status.nist_fips_204_compliant
            &&& after.compliance_status.nist_fips_205_compliant
                == vault.compliance_status.nist_fips_205_compliant
            &&& after.compliance_status.last_audit == vault.compliance_status.last_audit
            &&& after.transaction_count == vault.transaction_count
            &&& after.owner == vault.owner && after.algorithm == vault.algorithm
            &&& after.created_at == vault.created_at
            &&& vault.compliance_status.well_formed()
                ==> after.compliance_status.quantum_readiness_score
                >= vault.compliance_status.quantum_readiness_score
        }),
{
    reveal_with_fuel(score_after_rotations, 2);
}

/// A key that is more than 7 776 000 seconds old blocks every
/// authorization, whatever else is asked; a rotation at `now` lifts the
/// block for the 7 776 000 seconds that follow.
pub proof fn lemma_overdue_key_blocks_signing(
    ctx: SignTransactionView,
    message: Seq<u8>,
    signature: Seq<u8>,
    now: i64,
    new_public_key: Seq<u8>,
    later: i64,
)
    ensures
        now - ctx.vault.last_key_rotation > 7_776_000 ==> sign_transaction::refusal(
            ctx,
            message,
            signature,
            now,
        ) == Some(QuantumCustodyError::KeyRotationRequired),
        now - ctx.vault.last_key_rotation <= 7_776_000 ==> sign_transaction::refusal(
            ctx,
            message,
            signature,
            now,
        ) != Some(QuantumCustodyError::KeyRotationRequired),
        later - now <= 7_776_000 ==> !rotate_keys::rotated(
            ctx.vault,
            new_public_key,
            now,
        ).key_rotation_required(later),
{
}

/// Where the key is fresh and the signature has the right length, a
/// message is refused as too large exactly when it has more than 10 240
/// bytes.
pub proof fn lemma_message_limit_is_10240(
    ctx: SignTransactionView,
    message: Seq<u8>,
    signature: Seq<u8>,
    now: i64,
)
    requires
        !ctx.vault.key_rotation_required(now),
        signature.len() == ctx.vault.algorithm.spec_signature_size(),
    ensures
        sign_transaction::refusal(ctx, message, signature, now) == Some(
            QuantumCustodyError::MessageTooLarge,
        ) <==> message.len() > 10_240,
{
}

/// An authorization adds exactly one to the vault's count and to the
/// registry's, and changes nothing else. A vault whose count is at the
/// largest value authorizes nothing more: the count never wraps. Where the
/// other checks pass, the refusal is `MathOverflow`.
pub proof fn lemma_count_grows_by_one_and_never_wraps(
    ctx: SignTransactionView,
    message: Seq<u8>,
    signature: Seq<u8>,
    now: i64,
)
    ensures
        sign_transaction::refusal(ctx, message, signature, now) is None ==> ({
            let after = sign_transaction::authorized(ctx);
            &&& after.vault.transaction_count == ctx.vault.transaction_count + 1
            &&& after.global_state.total_transactions == ctx.global_state.total_transactions + 1
            &&& after.vault.public_key == ctx.vault.public_key
            &&& after.vault.compliance_status == ctx.vault.compliance_status
            &&& after.vault.last_key_rotation == ctx.vault.last_key_rotation
            &&& after.global_state.total_vaults == ctx.global_state.total_vaults
        }),
        ctx.vault.transaction_count == u64::MAX ==> sign_transaction::refusal(
            ctx,
            message,
            signature,
            now,
        ) is Some,
        ctx.vault.transaction_count == u64::MAX && !ctx.vault.key_rotation_required(now)
            && signature.len() == ctx.vault.algorithm.spec_signature_size() && message.len()
            <= 10_240 ==> sign_transaction::refusal(ctx, message, signature, now) == Some(
            QuantumCustodyError::MathOverflow,
        ),
{
}

} // verus!
