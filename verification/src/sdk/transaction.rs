//! Transactions under a quantum signature.

use vstd::prelude::*;
use vstd::slice::slice_to_vec;
use crate::sdk::clock::unix_timestamp;
use crate::sdk::crypto::dilithium::frames;
use crate::sdk::crypto::{is_signing_failure, signed_message, Algorithm, Keypair};
use crate::sdk::SdkError;

verus! {

/// A transaction together with its signed form.
#[derive(Debug, Clone)]
pub struct QuantumSignedTransaction {
    /// The bytes of the transaction.
    pub transaction: Vec<u8>,
    /// The signed message that the key pair made of the transaction: the
    /// signature, then the transaction.
    pub quantum_signature: Vec<u8>,
    /// The numeric code of the algorithm.
    pub algorithm: u8,
    /// When the transaction was signed, in seconds since the epoch.
    pub timestamp: i64,
}

/// A signed transaction as a mathematical value.
pub struct QuantumSignedTransactionView {
    pub transaction: Seq<u8>,
    pub quantum_signature: Seq<u8>,
    pub algorithm: u8,
    pub timestamp: i64,
}

impl View for QuantumSignedTransaction {
    type V = QuantumSignedTransactionView;

    open spec fn view(&self) -> QuantumSignedTransactionView {
        QuantumSignedTransactionView {
            transaction: self.transaction@,
            quantum_signature: self.quantum_signature@,
            algorithm: self.algorithm,
            timestamp: self.timestamp,
        }
    }
}

impl QuantumSignedTransaction {
    /// Puts a transaction together with the signed message that was made
    /// of it.
    pub fn assemble(
        transaction: &[u8],
        quantum_signature: Vec<u8>,
        algorithm: Algorithm,
        timestamp: i64,
    ) -> (signed: QuantumSignedTransaction)
        ensures
            signed@ == (QuantumSignedTransactionView {
                transaction: transaction@,
                quantum_signature: quantum_signature@,
                algorithm: algorithm.spec_to_u8(),
                timestamp,
            }),
    {
        QuantumSignedTransaction {
            transaction: slice_to_vec(transaction),
            quantum_signature,
            algorithm: algorithm.to_u8(),
            timestamp,
        }
    }

    /// Signs `transaction` with `keypair`, at the time that the clock of
    /// the machine shows.
    ///
    /// It succeeds exactly when the key pair can sign: its algorithm is
    /// Dilithium2, 3 or 5 and its secret key has the algorithm's length.
    /// The result then holds the transaction, the signed message that the
    /// key pair makes of it, and the code of the algorithm. Otherwise it
    /// fails as [`Keypair::sign`] does.
    pub fn new(transaction: &[u8], keypair: &Keypair) -> (result: Result<
        QuantumSignedTransaction,
        SdkError,
    >)
        ensures
            match result {
                Ok(signed) => {
                    &&& signed.transaction@ == transaction@
                    &&& signed_message(keypair.algorithm, transaction@, keypair.secret_key@)
                        == Some(signed.quantum_signature@)
                    &&& frames(
                        signed.quantum_signature@,
                        keypair.algorithm.signed_prefix_size(),
                        transaction@,
                    )
                    &&& signed.algorithm == keypair.algorithm.spec_to_u8()
                },
                Err(failure) => {
                    &&& signed_message(keypair.algorithm, transaction@, keypair.secret_key@)
                        is None
                    &&& is_signing_failure(keypair.algorithm, failure)
                },
            },
    {
        let quantum_signature = keypair.sign(transaction)?;
        let timestamp = unix_timestamp();
        Ok(QuantumSignedTransaction::assemble(
            transaction,
            quantum_signature,
            keypair.algorithm,
            timestamp,
        ))
    }
}

} // verus!
