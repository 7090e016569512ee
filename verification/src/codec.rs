//! Binary codec gateway: base64 decoding and the fixed binary schema for the
//! transaction envelope and the auxiliary ledger records.
//!
//! The decoded envelope is modeled as the variant structure the logic reads:
//! which of the three wire variants it is, and the description of each
//! operation body, in envelope order. Operation extraction over that model is
//! verified; only the decoding calls themselves are trusted.

use vstd::prelude::*;
use soroban_env_host::xdr as x;

verus! {

/// The inner transaction of a fee-bump envelope; the wire format admits only
/// a version-one transaction there.
pub enum InnerTx {
    Tx(Vec<String>),
}

/// A decoded transaction envelope: one of the plain, legacy, or fee-bump
/// variants, holding its operation-body descriptions in envelope order.
pub enum TxEnvelope {
    Tx(Vec<String>),
    TxV0(Vec<String>),
    FeeBump(InnerTx),
}

/// The mathematical shape of a decoded envelope.
pub enum EnvelopeView {
    Tx(Seq<Seq<char>>),
    TxV0(Seq<Seq<char>>),
    FeeBump(Seq<Seq<char>>),
}

impl EnvelopeView {
    /// Operation extraction, normalized across the three variants: a
    /// fee-bump envelope contributes its inner transaction's operations.
    pub open spec fn operations(self) -> Seq<Seq<char>> {
        match self {
            EnvelopeView::Tx(ops) => ops,
            EnvelopeView::TxV0(ops) => ops,
            EnvelopeView::FeeBump(ops) => ops,
        }
    }
}

impl View for TxEnvelope {
    type V = EnvelopeView;

    open spec fn view(&self) -> EnvelopeView {
        match self {
            TxEnvelope::Tx(ops) => EnvelopeView::Tx(ops.deep_view()),
            TxEnvelope::TxV0(ops) => EnvelopeView::TxV0(ops.deep_view()),
            TxEnvelope::FeeBump(InnerTx::Tx(ops)) => EnvelopeView::FeeBump(ops.deep_view()),
        }
    }
}

impl TxEnvelope {
    /// Extract the operations of this envelope, unwrapping a fee-bump
    /// envelope to its inner transaction.
    pub fn operations(&self) -> (r: &Vec<String>)
        ensures
            r.deep_view() == self@.operations(),
    {
        match self {
            TxEnvelope::Tx(ops) => ops,
            TxEnvelope::TxV0(ops) => ops,
            TxEnvelope::FeeBump(InnerTx::Tx(ops)) => ops,
        }
    }
}

/// All three envelope variants normalize to the same operation-extraction
/// result, and a fee-bump envelope extracts exactly its inner transaction's
/// operations.
pub proof fn lemma_variant_extraction_agrees(ops: Vec<String>)
    ensures
        TxEnvelope::Tx(ops)@.operations() == TxEnvelope::TxV0(ops)@.operations(),
        TxEnvelope::Tx(ops)@.operations() == TxEnvelope::FeeBump(InnerTx::Tx(ops))@.operations(),
        TxEnvelope::FeeBump(InnerTx::Tx(ops))@.operations() == ops.deep_view(),
{
}

/// What standard base64 decoding yields on a string, if it is valid base64.
pub uninterp spec fn b64_decoded(s: Seq<char>) -> Option<Seq<u8>>;

/// Relies on base64's standard-alphabet padded engine: whether a string is
/// valid base64 and what bytes it decodes to are functions of the string
/// alone.
#[verifier::external_body]
pub(crate) fn b64_decode(s: &str) -> (r: Result<Vec<u8>, String>)
    ensures
        r is Ok <==> b64_decoded(s@) is Some,
        r is Ok ==> r->Ok_0@ == b64_decoded(s@)->Some_0,
{
    base64::Engine::decode(&base64::engine::general_purpose::STANDARD, s)
        .map_err(|e| format!("{}", e))
}

/// The envelope decoded from a byte string, if it is one whole well-formed
/// envelope record within the decoder's default limits.
pub uninterp spec fn envelope_rec(bytes: Seq<u8>) -> Option<EnvelopeView>;

/// Relies on stellar-xdr's `TransactionEnvelope::from_xdr` under the host's
/// default decode limits — the finite recursion depth turns a deeply nested
/// record into an ordinary parse error instead of exhausting the stack — and
/// on each operation body's `Debug` implementation; both are functions of the
/// input bytes alone.
#[verifier::external_body]
pub(crate) fn parse_envelope(bytes: &Vec<u8>) -> (r: Result<TxEnvelope, String>)
    ensures
        r is Ok <==> envelope_rec(bytes@) is Some,
        r is Ok ==> r->Ok_0@ == envelope_rec(bytes@)->Some_0,
{
    let ops = |o: &[x::Operation]| -> Vec<String> {
        o.iter().map(|op| format!("{:?}", op.body)).collect()
    };
    match <x::TransactionEnvelope as x::ReadXdr>::from_xdr(bytes, soroban_env_host::DEFAULT_XDR_RW_LIMITS) {
        Ok(x::TransactionEnvelope::Tx(e)) => Ok(TxEnvelope::Tx(ops(&e.tx.operations))),
        Ok(x::TransactionEnvelope::TxV0(e)) => Ok(TxEnvelope::TxV0(ops(&e.tx.operations))),
        Ok(x::TransactionEnvelope::TxFeeBump(e)) => {
            let x::FeeBumpTransactionInnerTx::Tx(i) = &e.tx.inner_tx;
            Ok(TxEnvelope::FeeBump(InnerTx::Tx(ops(&i.tx.operations))))
        }
        Err(e) => Err(format!("{}", e)),
    }
}

/// Whether a byte string is one whole well-formed ledger-key record within
/// the decoder's default limits.
pub uninterp spec fn ledger_key_wf(bytes: Seq<u8>) -> bool;

/// Relies on stellar-xdr's `LedgerKey::from_xdr` under the host's default
/// decode limits (finite recursion depth, so a deeply nested record is a
/// parse error, not a stack overflow): a function of the input bytes alone.
#[verifier::external_body]
pub(crate) fn parse_ledger_key(bytes: &Vec<u8>) -> (r: Result<(), String>)
    ensures
        r is Ok <==> ledger_key_wf(bytes@),
{
    match <x::LedgerKey as x::ReadXdr>::from_xdr(bytes.as_slice(), soroban_env_host::DEFAULT_XDR_RW_LIMITS) {
        Ok(_) => Ok(()),
        Err(e) => Err(format!("{}", e)),
    }
}

/// Whether a byte string is one whole well-formed ledger-entry record within
/// the decoder's default limits.
pub uninterp spec fn ledger_entry_wf(bytes: Seq<u8>) -> bool;

/// Relies on stellar-xdr's `LedgerEntry::from_xdr` under the host's default
/// decode limits (finite recursion depth, so a deeply nested record is a
/// parse error, not a stack overflow): a function of the input bytes alone.
#[verifier::external_body]
pub(crate) fn parse_ledger_entry(bytes: &Vec<u8>) -> (r: Result<(), String>)
    ensures
        r is Ok <==> ledger_entry_wf(bytes@),
{
    match <x::LedgerEntry as x::ReadXdr>::from_xdr(bytes.as_slice(), soroban_env_host::DEFAULT_XDR_RW_LIMITS) {
        Ok(_) => Ok(()),
        Err(e) => Err(format!("{}", e)),
    }
}

} // verus!
