use vstd::prelude::*;

use crate::addr::{decoded_address, payable_receiver};
use crate::error::ZecError;
use crate::hexcodec::{hex_bytes, is_hex};
use crate::network::Network;
use crate::tx::{
    all_der, all_output_models, compressed_key, build_outcome, byte_views, encoded_as, finalize_outcome,
    input_models, is_public_key, keyed, lemma_input_failure_persists, lemma_input_models_entries,
    lemma_output_failure_persists, null_data_script, one_for_one, output_models, signed_encoding,
    spec_build, BuildFailure, Output, PartialTx, MAX_MONEY,
};

verus! {

/// Two builds of the same vault key, partial transaction and network agree:
/// both succeed or both fail, and on success they return the same
/// identifier, version and signature hashes.
pub proof fn build_is_deterministic(
    vault: Seq<u8>,
    ptx: PartialTx,
    network: Network,
    r1: Result<PartialTx, ZecError>,
    r2: Result<PartialTx, ZecError>,
)
    requires
        build_outcome(vault, ptx, network, r1),
        build_outcome(vault, ptx, network, r2),
    ensures
        r1 is Ok <==> r2 is Ok,
        r1 matches Ok(q1) ==> (r2 matches Ok(q2) && q1.txid@ == q2.txid@ && q1.version == q2.version
            && byte_views(q1.sighashes@) == byte_views(q2.sighashes@)),
{
}

/// Finalizing succeeds only with exactly one signature for each signature
/// hash that building the same partial transaction returned; in particular
/// signatures for a transaction without inputs are refused.
pub proof fn finalize_needs_one_signature_per_sighash(
    vault: Seq<u8>,
    ptx: PartialTx,
    network: Network,
    built: Result<PartialTx, ZecError>,
    sigs: Seq<Vec<u8>>,
    signed: Result<Vec<u8>, ZecError>,
)
    requires
        build_outcome(vault, ptx, network, built),
        finalize_outcome(vault, ptx, network, sigs, signed),
    ensures
        signed is Ok ==> (built matches Ok(q) && sigs.len() == q.sighashes@.len()),
        (built matches Ok(q) && sigs.len() != q.sighashes@.len()) ==> signed is Err,
{
    if let Ok(q) = built {
        assert(byte_views(q.sighashes@).len() == q.sighashes@.len());
    }
}

/// Signatures that sign the hashes `build_ptx` returned one for one, in
/// input order, finalize to the encoding of the very transaction that was
/// hashed, each input carrying its signature and the vault key in its
/// compressed encoding.
pub proof fn finalize_signs_what_build_hashed(
    vault: Seq<u8>,
    ptx: PartialTx,
    network: Network,
    built: Result<PartialTx, ZecError>,
    sigs: Seq<Vec<u8>>,
    signed: Result<Vec<u8>, ZecError>,
)
    requires
        build_outcome(vault, ptx, network, built),
        finalize_outcome(vault, ptx, network, sigs, signed),
        ptx.inputs@.len() > 0,
        built matches Ok(q) && one_for_one(compressed_key(vault), byte_views(sigs), byte_views(q.sighashes@)),
        all_der(sigs),
    ensures
        spec_build(vault, ptx, network) is Ok,
        encoded_as(signed, signed_encoding(spec_build(vault, ptx, network)->Ok_0, Some(keyed(byte_views(sigs), compressed_key(vault))))),
{
    lemma_input_models_entries(compressed_key(vault), ptx.inputs@);
}

/// An input value above the ledger's maximum fails the build with
/// `InvalidAmount` when it is the first input that fails.
pub proof fn excess_input_value_fails(key: Seq<u8>, ptx: PartialTx, network: Network, k: int)
    requires
        is_public_key(key),
        0 <= k < ptx.inputs@.len(),
        input_models(compressed_key(key), ptx.inputs@.take(k)) is Ok,
        is_hex(ptx.inputs@[k].txid@),
        hex_bytes(ptx.inputs@[k].txid@).len() == 32,
        is_hex(ptx.inputs@[k].script@),
        ptx.inputs@[k].value > MAX_MONEY,
    ensures
        spec_build(key, ptx, network) == Err::<crate::tx::UnsignedModel, BuildFailure>(
            BuildFailure::Amount(ptx.inputs@[k].value),
        ),
{
    assert(ptx.inputs@.take(k + 1).drop_last() =~= ptx.inputs@.take(k));
    lemma_input_failure_persists(compressed_key(key), ptx.inputs@, k + 1);
}

/// A payment above the ledger's maximum to a payable address fails the
/// build with `InvalidAmount` when it is the first part of the build that
/// fails.
pub proof fn excess_payment_fails(key: Seq<u8>, ptx: PartialTx, network: Network, k: int)
    requires
        is_public_key(key),
        input_models(compressed_key(key), ptx.inputs@) is Ok,
        0 <= k < ptx.outputs@.len(),
        all_output_models(network, ptx.outputs@.take(k)) is Ok,
        payable_receiver(decoded_address(network, ptx.outputs@[k].address@)) is Some,
        ptx.outputs@[k].amount > MAX_MONEY,
    ensures
        spec_build(key, ptx, network) == Err::<crate::tx::UnsignedModel, BuildFailure>(
            BuildFailure::Amount(ptx.outputs@[k].amount),
        ),
{
    assert(ptx.outputs@.take(k + 1).drop_last() =~= ptx.outputs@.take(k));
    lemma_output_failure_persists(network, ptx.outputs@, k + 1);
}

/// The bytes of a memo.
pub open spec fn memo_bytes(o: Output) -> Seq<u8> {
    vstd::utf8::encode_utf8(o.memo@)
}

/// A payment builds to one output paying its amount, followed, for a
/// non-empty memo only, by one zero-value output that carries the memo.
pub proof fn memo_adds_one_zero_value_output(network: Network, o: Output)
    requires
        output_models(network, o) is Ok,
    ensures
        output_models(network, o)->Ok_0[0].0 == o.amount,
        o.memo@.len() == 0 ==> output_models(network, o)->Ok_0.len() == 1,
        o.memo@.len() > 0 ==> (output_models(network, o)->Ok_0.len() == 2
            && output_models(network, o)->Ok_0[1] == (0u64, null_data_script(memo_bytes(o)))),
{
}

/// The number of payments of `s` that carry a memo.
pub open spec fn memo_count(s: Seq<Output>) -> nat
    decreases s.len(),
{
    if s.len() == 0 {
        0
    } else {
        memo_count(s.drop_last()) + if s.last().memo@.len() > 0 { 1nat } else { 0nat }
    }
}

/// A build has one output per payment plus one per memo.
pub proof fn output_count(network: Network, s: Seq<Output>)
    requires
        all_output_models(network, s) is Ok,
    ensures
        all_output_models(network, s)->Ok_0.len() == s.len() + memo_count(s),
    decreases s.len(),
{
    if s.len() > 0 {
        output_count(network, s.drop_last());
        memo_adds_one_zero_value_output(network, s.last());
    }
}

} // verus!
