use vstd::prelude::*;

use blake2b_simd::Params;
use secp256k1::ecdsa::Signature;
use secp256k1::{PublicKey, Secp256k1};
use zcash_primitives::transaction::sighash::{signature_hash, SignableInput};
use zcash_primitives::transaction::txid::TxIdDigester;
use zcash_primitives::transaction::{TransactionData, TxVersion, Unauthorized};
use zcash_protocol::consensus::{BlockHeight, BranchId};
use zcash_protocol::value::Zatoshis;
use zcash_transparent::address::Script;
use zcash_transparent::builder::TransparentBuilder;
use zcash_transparent::bundle::{OutPoint, TxOut};
use zcash_transparent::sighash::{SighashType, SignableInput as TransparentInput};

use crate::addr::{
    decode_address, decoded_address, receiver_script, transparent_address,
    DecodedAddress, TransparentReceiver,
};
use crate::error::ZecError;
use crate::hexcodec::{hex_bytes, hex_decode, hex_encode, hex_text, is_hex};
use crate::network::{branch_at, branch_for, spec_upgrade_heights, version_header_for, Branch, Network, UpgradeHeights};

verus! {

#[verifier::external_type_specification]
#[verifier::external_body]
pub struct ExTransparentBuilder(TransparentBuilder);

/// An unsigned transaction, as zcash_primitives holds it; `unsigned_model`
/// names its contents.
#[verifier::external_body]
pub struct UnsignedTx {
    tx: TransactionData<Unauthorized>,
}



/// A signed transaction with its identifier in hex.
pub struct TxBytes {
    pub txid: String,
    pub data: Vec<u8>,
}

/// The transaction exchanged between building and finalizing. `txid`,
/// `sighashes` and `version` are derived by `build_ptx` and never read.
#[derive(Clone, Debug)]
pub struct PartialTx {
    pub height: u32,
    pub txid: Vec<u8>,
    pub inputs: Vec<UTXO>,
    pub outputs: Vec<Output>,
    pub fee: u64,
    pub sighashes: Vec<Vec<u8>>,
    /// 0 means that the transaction never expires.
    pub expiry_height: u32,
    pub version: u32,
}

/// A spendable output of an earlier transaction.
#[derive(Clone, Debug)]
pub struct UTXO {
    /// Identifier of the earlier transaction, in hex, in display order.
    pub txid: String,
    pub height: u32,
    pub vout: u32,
    /// Locking script, in hex.
    pub script: String,
    pub value: u64,
}

/// A payment to an address, with an optional memo (empty for none).
#[derive(Clone, Debug, Default)]
pub struct Output {
    pub address: String,
    pub amount: u64,
    pub memo: String,
}

/// The largest amount of the ledger, in its smallest unit.
pub const MAX_MONEY: u64 = 2_100_000_000_000_000;

/// Longest data that a null-data output carries.
pub const MAX_NULL_DATA: usize = 80;

/// An input as the transaction commits to it: the previous transaction's
/// identifier in internal byte order, the output index, the value, the
/// locking script, and the public key that is to sign for it.
pub type InputModel = (Seq<u8>, u32, u64, Seq<u8>, Seq<u8>);

/// An output as the transaction commits to it: value and locking script.
pub type OutputModel = (u64, Seq<u8>);

/// An unsigned transparent-only transaction: its consensus branch (which
/// fixes its version), lock time, expiry height, and inputs and outputs in
/// order. It carries no shielded part.
pub struct UnsignedModel {
    pub branch: Branch,
    pub lock_time: u32,
    pub expiry: u32,
    pub inputs: Seq<InputModel>,
    pub outputs: Seq<OutputModel>,
}

/// Why a build fails.
pub enum BuildFailure {
    VaultKey,
    Amount(u64),
    Address(Seq<char>),
    Generic(Seq<char>),
}

/// `e` is the error that reports `f`.
pub open spec fn reports(e: ZecError, f: BuildFailure) -> bool {
    match f {
        BuildFailure::VaultKey => e matches ZecError::InvalidVaultPubkey(m) && m@ == "not a secp256k1 public key"@,
        BuildFailure::Amount(v) => e == ZecError::InvalidAmount(v),
        BuildFailure::Address(s) => e matches ZecError::InvalidAddress(a) && a@ == s,
        BuildFailure::Generic(s) => e matches ZecError::GenericError(m) && m@ == s,
    }
}

/// The inputs committed to so far by a transparent builder.
pub uninterp spec fn builder_inputs(b: TransparentBuilder) -> Seq<InputModel>;

/// The outputs committed to so far by a transparent builder.
pub uninterp spec fn builder_outputs(b: TransparentBuilder) -> Seq<OutputModel>;

/// The contents of an unsigned transaction.
pub uninterp spec fn unsigned_model(t: UnsignedTx) -> UnsignedModel;

/// For each input of a signed transparent part, the DER signature and the
/// compressed public key that its unlocking script carries; `None` when there is no
/// transparent part.
pub uninterp spec fn signed_inputs(p: SignedPart) -> Option<Seq<(Seq<u8>, Seq<u8>)>>;

/// `b` is the encoding of a secp256k1 public key.
pub uninterp spec fn is_public_key(b: Seq<u8>) -> bool;

/// The 33-byte compressed encoding of the public key encoded by `b`.
pub uninterp spec fn compressed_key(b: Seq<u8>) -> Seq<u8>;

/// A coin locked by `script` can be spent as a pay-to-public-key-hash input
/// with the public key encoded by `key`.
pub uninterp spec fn spendable_by(key: Seq<u8>, script: Seq<u8>) -> bool;

/// `b` is a DER-encoded ECDSA signature.
pub uninterp spec fn is_der_signature(b: Seq<u8>) -> bool;

/// The DER signature `der` verifies against the 32-byte message `hash`
/// under the public key encoded by `key`.
pub uninterp spec fn valid_sig(key: Seq<u8>, der: Seq<u8>, hash: Seq<u8>) -> bool;

/// The output viewing key derived from a vault public key.
pub uninterp spec fn ovk_of(key: Seq<u8>) -> Seq<u8>;

/// The shortest script push of `d` (at most 80 bytes): a small-number
/// opcode for the single bytes that have one, else a length byte (after
/// `OP_PUSHDATA1` above 75 bytes) and the bytes.
pub open spec fn push_data(d: Seq<u8>) -> Seq<u8> {
    if d.len() == 1 && d[0] == 0x81 {
        seq![0x4fu8]
    } else if d.len() == 1 && 1 <= d[0] <= 16 {
        seq![(0x50 + d[0]) as u8]
    } else if d.len() <= 0x4b {
        seq![d.len() as u8] + d
    } else {
        seq![0x4cu8, d.len() as u8] + d
    }
}

/// The locking script of a null-data output that carries `data`:
/// `OP_RETURN` and a push of the data.
pub open spec fn null_data_script(data: Seq<u8>) -> Seq<u8> {
    seq![0x6au8] + push_data(data)
}

/// The identifier of an unsigned transaction.
pub uninterp spec fn txid_of(m: UnsignedModel) -> Seq<u8>;

/// The hash that the signer of input `index` of a transaction signs.
pub uninterp spec fn sighash_of(m: UnsignedModel, index: nat) -> Seq<u8>;

/// The binary encoding of the transaction `m` with the signed transparent
/// part `signed`, or `None` where the encoder refuses it.
pub uninterp spec fn signed_encoding(m: UnsignedModel, signed: Option<Seq<(Seq<u8>, Seq<u8>)>>) -> Option<Seq<u8>>;

/// Relies on `Zatoshis::from_u64` of zcash_protocol: amounts up to
/// `MAX_MONEY` are accepted.
#[verifier::external_body]
fn money_in_range(v: u64) -> (r: bool)
    ensures
        r == (v <= MAX_MONEY),
{
    Zatoshis::from_u64(v).is_ok()
}

/// Relies on `PublicKey::from_slice` and `PublicKey::serialize` of
/// secp256k1: the compressed encoding of a parsed key, itself a key that
/// parses.
#[verifier::external_body]
fn public_key_bytes(b: &[u8]) -> (r: Option<Vec<u8>>)
    ensures
        r is Some == is_public_key(b@),
        r matches Some(k) ==> k@ == compressed_key(b@) && k@.len() == 33 && is_public_key(k@),
{
    PublicKey::from_slice(b).ok().map(|k| k.serialize().to_vec())
}

/// Relies on `Signature::from_der` of secp256k1.
#[verifier::external_body]
fn is_der(b: &[u8]) -> (r: bool)
    ensures
        r == is_der_signature(b@),
{
    Signature::from_der(b).is_ok()
}

/// Relies on blake2b_simd: a 32-byte BLAKE2b hash under a fixed
/// personalization.
#[verifier::external_body]
fn ovk_hash(key: &[u8]) -> (r: Vec<u8>)
    ensures
        r@ == ovk_of(key@),
        r@.len() == 32,
{
    Params::new().hash_length(32).personal(b"Zcash_Maya_OVK__").hash(key).as_bytes().to_vec()
}

/// Relies on `TransparentBuilder::empty` of zcash_transparent.
#[verifier::external_body]
fn empty_builder() -> (r: TransparentBuilder)
    ensures
        builder_inputs(r) == Seq::<InputModel>::empty(),
        builder_outputs(r) == Seq::<OutputModel>::empty(),
{
    TransparentBuilder::empty()
}

/// Relies on `TransparentBuilder::add_p2pkh_input` of zcash_transparent: it
/// appends the input, to be signed with `key` (a compressed key, which
/// serializes back to the same 33 bytes), when the script pays the hash of
/// the key, and changes nothing otherwise.
#[verifier::external_body]
fn add_input(b: &mut TransparentBuilder, key: &[u8], prev: [u8; 32], vout: u32, value: u64, script: &Vec<u8>) -> (r: bool)
    requires
        is_public_key(key@),
        key@.len() == 33,
        value <= MAX_MONEY,
    ensures
        r == spendable_by(key@, script@),
        r ==> builder_inputs(*final(b)) == builder_inputs(*old(b)).push((prev@, vout, value, script@, key@)),
        !r ==> builder_inputs(*final(b)) == builder_inputs(*old(b)),
        builder_outputs(*final(b)) == builder_outputs(*old(b)),
{
    let pk = PublicKey::from_slice(key).expect("checked by the caller");
    let mut s = Script::default();
    s.0.0 = script.clone();
    let coin = TxOut::new(Zatoshis::const_from_u64(value), s);
    b.add_p2pkh_input(pk, OutPoint::new(prev, vout), coin).is_ok()
}

/// Relies on `TransparentBuilder::add_output` of zcash_transparent: it
/// appends an output locked by the receiver's standard script.
#[verifier::external_body]
fn add_output(b: &mut TransparentBuilder, to: &TransparentReceiver, value: u64)
    requires
        value <= MAX_MONEY,
    ensures
        builder_outputs(*final(b)) == builder_outputs(*old(b)).push((value, receiver_script(*to))),
        builder_inputs(*final(b)) == builder_inputs(*old(b)),
{
    b.add_output(&transparent_address(to), Zatoshis::const_from_u64(value)).expect("never fails")
}

/// Relies on `TransparentBuilder::add_null_data_output` of zcash_transparent:
/// it appends a zero-value output carrying up to 80 bytes, and refuses more.
#[verifier::external_body]
fn add_null_data(b: &mut TransparentBuilder, data: &[u8]) -> (r: bool)
    ensures
        r == (data@.len() <= MAX_NULL_DATA),
        r ==> builder_outputs(*final(b)) == builder_outputs(*old(b)).push((0u64, null_data_script(data@))),
        !r ==> builder_outputs(*final(b)) == builder_outputs(*old(b)),
        builder_inputs(*final(b)) == builder_inputs(*old(b)),
{
    b.add_null_data_output(data).is_ok()
}

/// Relies on `BranchId::for_height`, `TxVersion::suggested_for_branch`,
/// `TransparentBuilder::build` and `TransactionData::from_parts`: the
/// unsigned transaction of the branch in force at `height`, with lock time 0,
/// the builder's transparent inputs and outputs, and no shielded part.
#[verifier::external_body]
fn unsigned_tx(b: TransparentBuilder, h: &UpgradeHeights, height: u32, expiry: u32) -> (r: UnsignedTx)
    ensures
        unsigned_model(r) == (UnsignedModel {
            branch: branch_for(*h, height),
            lock_time: 0,
            expiry,
            inputs: builder_inputs(b),
            outputs: builder_outputs(b),
        }),
{
    let branch = BranchId::for_height(&crate::network::local_network(h), BlockHeight::from_u32(height));
    UnsignedTx { tx: TransactionData::from_parts(TxVersion::suggested_for_branch(branch), branch, 0,
        BlockHeight::from_u32(expiry), b.build(), None, None, None) }
}

/// Relies on `TxVersion::header` of zcash_primitives.
#[verifier::external_body]
fn version_header(t: &UnsignedTx) -> (r: u32)
    ensures
        r == version_header_for(unsigned_model(*t).branch),
{
    t.tx.version().header()
}

/// Relies on `TransactionData::digest` and `signature_hash` of
/// zcash_primitives: the 32-byte transaction hash under the shielded signing
/// domain. Hashing panics under the original branch, which has no
/// versioned transactions.
#[verifier::external_body]
fn txid_hash(t: &UnsignedTx) -> (r: Vec<u8>)
    requires
        unsigned_model(*t).branch != Branch::Sprout,
    ensures
        r@ == txid_of(unsigned_model(*t)),
        r@.len() == 32,
{
    let parts = t.tx.digest(TxIdDigester);
    signature_hash(&t.tx, &SignableInput::Shielded, &parts).as_ref().to_vec()
}

/// Relies on `TransactionData::digest`, `SignableInput::from_parts` and
/// `signature_hash`: the 32-byte hash of input `index` under the transparent
/// signing domain, signing all inputs and outputs, with the input's own
/// locking script and value.
#[verifier::external_body]
fn input_sighash(t: &UnsignedTx, index: usize, script: &Vec<u8>, value: u64) -> (r: Vec<u8>)
    requires
        unsigned_model(*t).branch != Branch::Sprout,
        index < unsigned_model(*t).inputs.len(),
        script@ == unsigned_model(*t).inputs[index as int].3,
        value == unsigned_model(*t).inputs[index as int].2,
    ensures
        r@ == sighash_of(unsigned_model(*t), index as nat),
        r@.len() == 32,
{
    let parts = t.tx.digest(TxIdDigester);
    let mut s = Script::default();
    s.0.0 = script.clone();
    let bundle = t.tx.transparent_bundle().expect("the transaction has inputs");
    let input = TransparentInput::from_parts(bundle, SighashType::ALL, index, &s, &s,
        Zatoshis::const_from_u64(value)).expect("index in range");
    signature_hash(&t.tx, &SignableInput::Transparent(input), &parts).as_ref().to_vec()
}

/// Relies on `TransactionData::transparent_bundle`: a transaction has a
/// transparent part when it has an input or an output.
#[verifier::external_body]
fn has_transparent_part(t: &UnsignedTx) -> (r: bool)
    ensures
        r == (unsigned_model(*t).inputs.len() > 0 || unsigned_model(*t).outputs.len() > 0),
{
    t.tx.transparent_bundle().is_some()
}

/// The signed transparent part of a transaction, if it has one.
#[verifier::external_body]
pub struct SignedPart {
    bundle: Option<zcash_transparent::bundle::Bundle<zcash_transparent::bundle::Authorized>>,
}

/// The signatures `der` sign the inputs of `m` one for one, in order: each
/// verifies against its own input's hash `hashes[k]` and against no other.
pub open spec fn one_for_one(key: Seq<u8>, der: Seq<Seq<u8>>, hashes: Seq<Seq<u8>>) -> bool {
    &&& der.len() == hashes.len()
    &&& forall|k: int| 0 <= k < der.len() ==> valid_sig(key, #[trigger] der[k], hashes[k])
    &&& forall|k: int| 0 <= k < der.len() ==> forall|j: int| 0 <= j < der.len() && j != k
        ==> !valid_sig(key, #[trigger] der[k], #[trigger] hashes[j])
}

/// `pi` places the signatures `der` on the inputs whose hashes are
/// `hashes`: input `i` carries signature `pi[i]` with `key` (recorded in
/// `placed`), that signature verifies against the input's hash, and no
/// signature sits on two inputs.
pub open spec fn placement(pi: Seq<int>, key: Seq<u8>, der: Seq<Seq<u8>>, hashes: Seq<Seq<u8>>, placed: Seq<(Seq<u8>, Seq<u8>)>) -> bool {
    &&& pi.len() == hashes.len()
    &&& placed.len() == hashes.len()
    &&& der.len() == hashes.len()
    &&& forall|i: int| 0 <= i < pi.len() ==> 0 <= #[trigger] pi[i] < der.len()
        && placed[i] == (der[pi[i]], key) && valid_sig(key, der[pi[i]], hashes[i])
    &&& forall|i: int, j: int| 0 <= i < pi.len() && 0 <= j < pi.len() && i != j ==> #[trigger] pi[i] != #[trigger] pi[j]
}

/// Some placement of `der` on the inputs gives `placed`.
pub open spec fn placed_well(key: Seq<u8>, der: Seq<Seq<u8>>, hashes: Seq<Seq<u8>>, placed: Seq<(Seq<u8>, Seq<u8>)>) -> bool {
    exists|pi: Seq<int>| placement(pi, key, der, hashes, placed)
}

/// What the signing context makes of the signatures `der` for inputs with
/// hashes `hashes`, all to be signed with `key`: the signature and key on
/// each input, or `None` where it refuses them.
pub uninterp spec fn placed_signatures(hashes: Seq<Seq<u8>>, key: Seq<u8>, der: Seq<Seq<u8>>) -> Option<Seq<(Seq<u8>, Seq<u8>)>>;

/// The views of a list of 32-byte hashes.
pub open spec fn hash_views(h: Seq<[u8; 32]>) -> Seq<Seq<u8>> {
    h.map_values(|a: [u8; 32]| a@)
}

/// Each signature of `der`, paired with the key `key`.
pub open spec fn keyed(der: Seq<Seq<u8>>, key: Seq<u8>) -> Seq<(Seq<u8>, Seq<u8>)> {
    Seq::new(der.len(), |k: int| (der[k], key))
}

/// Relies on `prepare_transparent_signatures`, `append_external_signatures`
/// and `finalize_signatures` of zcash_transparent, with the hash of input
/// `k` taken from `hashes[k]`. Each signature is placed on the one unsigned
/// input whose hash it verifies against, and every input must end up signed
/// exactly once: success means one signature per input, each verifying
/// against the hash of the input it sits on, and signatures that match the
/// inputs one for one succeed. The outcome depends on the hashes, the key
/// and the signatures alone. Signatures that verify are in the canonical
/// low-S DER form, which the unlocking script carries unchanged.
#[verifier::external_body]
fn sign_transparent(t: &UnsignedTx, key: &[u8], hashes: &Vec<[u8; 32]>, der: &Vec<Vec<u8>>) -> (r: Result<SignedPart, String>)
    requires
        unsigned_model(*t).inputs.len() > 0 || unsigned_model(*t).outputs.len() > 0,
        hashes@.len() == unsigned_model(*t).inputs.len(),
        forall|k: int| 0 <= k < der@.len() ==> is_der_signature(#[trigger] der@[k]@),
        forall|k: int| 0 <= k < unsigned_model(*t).inputs.len()
            ==> (#[trigger] unsigned_model(*t).inputs[k]).4 == key@,
    ensures
        r is Ok == placed_signatures(hash_views(hashes@), key@, byte_views(der@)) is Some,
        r is Ok ==> signed_inputs(r->Ok_0) == placed_signatures(hash_views(hashes@), key@, byte_views(der@)),
        r is Ok ==> placed_well(key@, byte_views(der@), hash_views(hashes@),
            placed_signatures(hash_views(hashes@), key@, byte_views(der@))->Some_0),
        r is Ok ==> der@.len() == unsigned_model(*t).inputs.len(),
        r is Ok && signed_inputs(r->Ok_0) == Some(keyed(byte_views(der@), key@)) || !(der@.len() == hashes@.len()
            && (forall|k: int| 0 <= k < der@.len() ==> valid_sig(key@, #[trigger] der@[k]@, hashes@[k]@))
            && (forall|k: int| 0 <= k < der@.len() ==> forall|j: int| 0 <= j < der@.len() && j != k
                ==> !valid_sig(key@, #[trigger] der@[k]@, #[trigger] hashes@[j]@))),
{
    let sigs: Vec<Signature> = der.iter().map(|d| Signature::from_der(d).expect("checked by the caller")).collect();
    let secp = Secp256k1::verification_only();
    let bundle = t.tx.transparent_bundle().cloned().expect("checked by the caller");
    bundle.prepare_transparent_signatures(|i| hashes[*i.index()], &secp)
        .and_then(|c| c.append_external_signatures(&sigs))
        .and_then(|c| c.finalize_signatures())
        .map(|b| SignedPart { bundle: Some(b) }).map_err(|e| e.to_string())
}

/// The signed part of a transaction without transparent part.
#[verifier::external_body]
fn no_signed_part() -> (r: SignedPart)
    ensures
        signed_inputs(r) is None,
{
    SignedPart { bundle: None }
}

/// Relies on `TransactionData::from_parts`, `freeze` and `write` of
/// zcash_primitives: the transaction with the header of `t` and the signed
/// transparent part `s`, in the ledger's binary format.
#[verifier::external_body]
fn serialize_signed(t: UnsignedTx, s: SignedPart) -> (r: Result<Vec<u8>, String>)
    ensures
        r is Ok <==> signed_encoding(unsigned_model(t), signed_inputs(s)) is Some,
        r matches Ok(b) ==> b@ == signed_encoding(unsigned_model(t), signed_inputs(s))->Some_0,
{
    let tx = TransactionData::from_parts(t.tx.version(), t.tx.consensus_branch_id(),
        t.tx.lock_time(), t.tx.expiry_height(), s.bundle, None, None, None)
        .freeze().map_err(|e| e.to_string())?;
    let mut buffer = vec![];
    tx.write(&mut buffer).map_err(|e| e.to_string())?;
    Ok(buffer)
}

/// The internal-order identifier of the transaction that `txid` displays.
pub open spec fn prev_txid(txid: Seq<char>) -> Seq<u8> {
    hex_bytes(txid).reverse()
}

/// What a build commits to for input `i`, or why it fails.
pub open spec fn input_model(key: Seq<u8>, i: UTXO) -> Result<InputModel, BuildFailure> {
    if !is_hex(i.txid@) {
        Err(BuildFailure::Generic("Invalid Hex string"@))
    } else if hex_bytes(i.txid@).len() != 32 {
        Err(BuildFailure::Generic("fail to convert slice to array of size 32"@))
    } else if !is_hex(i.script@) {
        Err(BuildFailure::Generic("Invalid script hex"@))
    } else if i.value > MAX_MONEY {
        Err(BuildFailure::Amount(i.value))
    } else if !spendable_by(key, hex_bytes(i.script@)) {
        Err(BuildFailure::Generic("Failed to add transparent input"@))
    } else {
        Ok((prev_txid(i.txid@), i.vout, i.value, hex_bytes(i.script@), key))
    }
}

/// What a build commits to for the inputs `s`, in order, or the failure of
/// the first input that fails.
pub open spec fn input_models(key: Seq<u8>, s: Seq<UTXO>) -> Result<Seq<InputModel>, BuildFailure>
    decreases s.len(),
{
    if s.len() == 0 {
        Ok(Seq::empty())
    } else {
        match input_models(key, s.drop_last()) {
            Err(f) => Err(f),
            Ok(done) => match input_model(key, s.last()) {
                Err(f) => Err(f),
                Ok(m) => Ok(done.push(m)),
            },
        }
    }
}

/// The outputs that a build commits to for the payment `o`: the payment,
/// then, for a non-empty memo, a zero-value output carrying the memo's bytes.
pub open spec fn output_models(net: Network, o: Output) -> Result<Seq<OutputModel>, BuildFailure> {
    match decoded_address(net, o.address@) {
        DecodedAddress::Undecodable => Err(BuildFailure::Address(o.address@)),
        DecodedAddress::Tex => Err(BuildFailure::Address(o.address@)),
        DecodedAddress::Sapling => Err(BuildFailure::Address(o.address@)),
        DecodedAddress::Unified(None) => Err(BuildFailure::Generic("only transparent address components are supported"@)),
        DecodedAddress::Transparent(t) => payment_models(t, o.amount, o.memo@),
        DecodedAddress::Unified(Some(t)) => payment_models(t, o.amount, o.memo@),
    }
}

/// The outputs that pay `amount` with `memo` to the transparent receiver `t`.
pub open spec fn payment_models(t: TransparentReceiver, amount: u64, memo: Seq<char>) -> Result<Seq<OutputModel>, BuildFailure> {
    if amount > MAX_MONEY {
        Err(BuildFailure::Amount(amount))
    } else if memo.len() == 0 {
        Ok(seq![(amount, receiver_script(t))])
    } else if vstd::utf8::encode_utf8(memo).len() > MAX_NULL_DATA {
        Err(BuildFailure::Generic("fail to add transparent memo"@))
    } else {
        Ok(seq![(amount, receiver_script(t)), (0u64, null_data_script(vstd::utf8::encode_utf8(memo)))])
    }
}

/// What a build commits to for the payments `s`, in order, or the failure
/// of the first payment that fails.
pub open spec fn all_output_models(net: Network, s: Seq<Output>) -> Result<Seq<OutputModel>, BuildFailure>
    decreases s.len(),
{
    if s.len() == 0 {
        Ok(Seq::empty())
    } else {
        match all_output_models(net, s.drop_last()) {
            Err(f) => Err(f),
            Ok(done) => match output_models(net, s.last()) {
                Err(f) => Err(f),
                Ok(m) => Ok(done + m),
            },
        }
    }
}

/// The unsigned transaction that `ptx` describes for the vault key `vault`
/// on `net`, or why there is none. The key is checked first, then the
/// inputs, then the payments. Inputs are registered with the key's
/// compressed encoding.
pub open spec fn spec_build(vault: Seq<u8>, ptx: PartialTx, net: Network) -> Result<UnsignedModel, BuildFailure> {
    if !is_public_key(vault) {
        Err(BuildFailure::VaultKey)
    } else {
        match input_models(compressed_key(vault), ptx.inputs@) {
            Err(f) => Err(f),
            Ok(ins) => match all_output_models(net, ptx.outputs@) {
                Err(f) => Err(f),
                Ok(outs) => Ok(UnsignedModel {
                    branch: branch_for(spec_upgrade_heights(net), ptx.height),
                    lock_time: 0,
                    expiry: ptx.expiry_height,
                    inputs: ins,
                    outputs: outs,
                }),
            },
        }
    }
}

/// A failure on a prefix of the inputs is the failure of the whole list.
pub proof fn lemma_input_failure_persists(key: Seq<u8>, s: Seq<UTXO>, k: int)
    requires
        0 <= k <= s.len(),
        input_models(key, s.take(k)) is Err,
    ensures
        input_models(key, s) == input_models(key, s.take(k)),
    decreases s.len() - k,
{
    if k < s.len() {
        assert(s.take(k + 1).drop_last() =~= s.take(k));
        lemma_input_failure_persists(key, s, k + 1);
    } else {
        assert(s.take(k) =~= s);
    }
}

/// A failure on a prefix of the payments is the failure of the whole list.
pub proof fn lemma_output_failure_persists(net: Network, s: Seq<Output>, k: int)
    requires
        0 <= k <= s.len(),
        all_output_models(net, s.take(k)) is Err,
    ensures
        all_output_models(net, s) == all_output_models(net, s.take(k)),
    decreases s.len() - k,
{
    if k < s.len() {
        assert(s.take(k + 1).drop_last() =~= s.take(k));
        lemma_output_failure_persists(net, s, k + 1);
    } else {
        assert(s.take(k) =~= s);
    }
}

/// When every input builds, input `k` builds to entry `k`.
pub proof fn lemma_input_models_entries(key: Seq<u8>, s: Seq<UTXO>)
    requires
        input_models(key, s) is Ok,
    ensures
        input_models(key, s)->Ok_0.len() == s.len(),
        forall|k: int| 0 <= k < s.len() ==> (#[trigger] input_model(key, s[k])) is Ok
            && input_models(key, s)->Ok_0[k] == input_model(key, s[k])->Ok_0,
    decreases s.len(),
{
    if s.len() > 0 {
        lemma_input_models_entries(key, s.drop_last());
        assert forall|k: int| 0 <= k < s.len() implies (#[trigger] input_model(key, s[k])) is Ok
            && input_models(key, s)->Ok_0[k] == input_model(key, s[k])->Ok_0 by {
            if k < s.len() - 1 {
                assert(s.drop_last()[k] == s[k]);
            }
        }
    }
}

/// Maps a hex decoding failure to the library's error.
pub fn decode_hexstring(s: &str) -> (r: Result<Vec<u8>, ZecError>)
    ensures
        r is Ok <==> is_hex(s@),
        r matches Ok(v) ==> v@ == hex_bytes(s@),
        r matches Err(e) ==> e matches ZecError::GenericError(m) && m@ == "Invalid Hex string"@,
{
    match hex_decode(s) {
        Some(v) => Ok(v),
        None => Err(ZecError::GenericError("Invalid Hex string".to_owned())),
    }
}

/// The 32 bytes of `v`, or an error when `v` has another length.
pub fn to_ba(v: &[u8]) -> (r: Result<[u8; 32], ZecError>)
    ensures
        r is Ok <==> v@.len() == 32,
        r matches Ok(a) ==> a@ == v@,
        r matches Err(e) ==> e matches ZecError::GenericError(m) && m@ == "fail to convert slice to array of size 32"@,
{
    if v.len() != 32 {
        return Err(ZecError::GenericError("fail to convert slice to array of size 32".to_owned()));
    }
    let mut a: [u8; 32] = [0u8; 32];
    let mut i: usize = 0;
    while i < 32
        invariant
            i <= 32,
            v@.len() == 32,
            forall|j: int| 0 <= j < i ==> a@[j] == v@[j],
        decreases 32 - i,
    {
        a[i] = v[i];
        i = i + 1;
    }
    assert(a@ =~= v@);
    Ok(a)
}

/// Decodes a transaction identifier from its display form (hex, byte order
/// reversed) into its 32 internal-order bytes.
pub fn to_hash(s: &str) -> (r: Result<[u8; 32], ZecError>)
    ensures
        r is Ok <==> is_hex(s@) && hex_bytes(s@).len() == 32,
        r matches Ok(a) ==> a@ == prev_txid(s@),
        !is_hex(s@) ==> (r matches Err(e) && e matches ZecError::GenericError(m) && m@ == "Invalid Hex string"@),
        is_hex(s@) && hex_bytes(s@).len() != 32 ==> (r matches Err(e) && e matches ZecError::GenericError(m)
            && m@ == "fail to convert slice to array of size 32"@),
{
    let v = decode_hexstring(s)?;
    let n = v.len();
    let mut rev: Vec<u8> = Vec::new();
    let mut j: usize = n;
    while j > 0
        invariant
            n == v@.len(),
            j <= n,
            rev@.len() == n - j,
            forall|k: int| 0 <= k < n - j ==> #[trigger] rev@[k] == v@[n - 1 - k],
        decreases j,
    {
        j = j - 1;
        rev.push(v[j]);
    }
    assert(rev@ =~= v@.reverse());
    to_ba(rev.as_slice())
}

/// Derives the output viewing key of a vault public key: a 32-byte BLAKE2b
/// hash of the key under a fixed personalization.
pub fn get_ovk(pubkey: Vec<u8>) -> (r: Result<Vec<u8>, ZecError>)
    ensures
        r matches Ok(v) && v@ == ovk_of(pubkey@) && v@.len() == 32,
{
    Ok(ovk_hash(pubkey.as_slice()))
}

/// Adds the outputs that pay `amount` to `receiver`: the payment, then, for a
/// non-empty memo, a zero-value output carrying the memo's bytes.
fn handle_receiver(receiver: TransparentReceiver, amount: u64, memo: &str, tbuilder: &mut TransparentBuilder) -> (r: Result<(), ZecError>)
    ensures
        builder_inputs(*final(tbuilder)) == builder_inputs(*old(tbuilder)),
        amount > MAX_MONEY ==> builder_outputs(*final(tbuilder)) == builder_outputs(*old(tbuilder)),
        match payment_models(receiver, amount, memo@) {
            Ok(m) => r is Ok && builder_outputs(*final(tbuilder)) == builder_outputs(*old(tbuilder)) + m,
            Err(f) => r matches Err(e) && reports(e, f),
        },
{
    if !money_in_range(amount) {
        return Err(ZecError::InvalidAmount(amount));
    }
    let ghost before = builder_outputs(*tbuilder);
    add_output(tbuilder, &receiver, amount);
    if !memo.is_empty() {
        if !add_null_data(tbuilder, memo.as_bytes()) {
            return Err(ZecError::GenericError("fail to add transparent memo".to_owned()));
        }
    }
    proof {
        if let Ok(m) = payment_models(receiver, amount, memo@) {
            assert(builder_outputs(*tbuilder) =~= before + m);
        }
    }
    Ok(())
}

/// Builds the unsigned transaction that `ptx` describes, registering inputs
/// and outputs in the order given.
fn build_unauthorized_tx(vault: &Vec<u8>, ptx: &PartialTx, network: Network) -> (r: Result<UnsignedTx, ZecError>)
    ensures
        match spec_build(vault@, *ptx, network) {
            Ok(m) => r matches Ok(t) && unsigned_model(t) == m,
            Err(f) => r matches Err(e) && reports(e, f),
        },
{
    let key = match public_key_bytes(vault.as_slice()) {
        Some(k) => k,
        None => return Err(ZecError::InvalidVaultPubkey("not a secp256k1 public key".to_owned())),
    };
    let mut tb = empty_builder();
    let mut i: usize = 0;
    while i < ptx.inputs.len()
        invariant
            is_public_key(vault@),
            key@ == compressed_key(vault@),
            key@.len() == 33,
            is_public_key(key@),
            i <= ptx.inputs@.len(),
            input_models(key@, ptx.inputs@.take(i as int)) is Ok,
            builder_inputs(tb) == input_models(key@, ptx.inputs@.take(i as int))->Ok_0,
            builder_outputs(tb) == Seq::<OutputModel>::empty(),
        decreases ptx.inputs@.len() - i,
    {
        let inp = &ptx.inputs[i];
        proof {
            assert(ptx.inputs@.take(i + 1).drop_last() =~= ptx.inputs@.take(i as int));
            assert(ptx.inputs@.take(i + 1).last() == ptx.inputs@[i as int]);
        }
        let prev = match to_hash(inp.txid.as_str()) {
            Ok(h) => h,
            Err(e) => {
                proof { lemma_input_failure_persists(key@, ptx.inputs@, i + 1); }
                return Err(e);
            },
        };
        let script = match decode_hexstring(inp.script.as_str()) {
            Ok(s) => s,
            Err(_) => {
                proof { lemma_input_failure_persists(key@, ptx.inputs@, i + 1); }
                return Err(ZecError::GenericError("Invalid script hex".to_owned()));
            },
        };
        if !money_in_range(inp.value) {
            proof { lemma_input_failure_persists(key@, ptx.inputs@, i + 1); }
            return Err(ZecError::InvalidAmount(inp.value));
        }
        if !add_input(&mut tb, key.as_slice(), prev, inp.vout, inp.value, &script) {
            proof { lemma_input_failure_persists(key@, ptx.inputs@, i + 1); }
            return Err(ZecError::GenericError("Failed to add transparent input".to_owned()));
        }
        i = i + 1;
    }
    proof { assert(ptx.inputs@.take(i as int) =~= ptx.inputs@); }
    let regtest = Network::Regtest.upgrade_heights();
    let mut k: usize = 0;
    while k < ptx.outputs.len()
        invariant
            is_public_key(vault@),
            key@ == compressed_key(vault@),
            input_models(key@, ptx.inputs@) is Ok,
            builder_inputs(tb) == input_models(key@, ptx.inputs@)->Ok_0,
            k <= ptx.outputs@.len(),
            all_output_models(network, ptx.outputs@.take(k as int)) is Ok,
            builder_outputs(tb) == all_output_models(network, ptx.outputs@.take(k as int))->Ok_0,
        decreases ptx.outputs@.len() - k,
    {
        let o = &ptx.outputs[k];
        proof {
            assert(ptx.outputs@.take(k + 1).drop_last() =~= ptx.outputs@.take(k as int));
            assert(ptx.outputs@.take(k + 1).last() == ptx.outputs@[k as int]);
        }
        let receiver = match decode_address(network, regtest, o.address.as_str()) {
            DecodedAddress::Transparent(t) => t,
            DecodedAddress::Unified(Some(t)) => t,
            DecodedAddress::Unified(None) => {
                proof { lemma_output_failure_persists(network, ptx.outputs@, k + 1); }
                return Err(ZecError::GenericError("only transparent address components are supported".to_owned()));
            },
            DecodedAddress::Undecodable | DecodedAddress::Tex | DecodedAddress::Sapling => {
                proof { lemma_output_failure_persists(network, ptx.outputs@, k + 1); }
                return Err(ZecError::InvalidAddress(o.address.clone()));
            },
        };
        let ghost before = builder_outputs(tb);
        match handle_receiver(receiver, o.amount, o.memo.as_str(), &mut tb) {
            Ok(()) => {},
            Err(e) => {
                proof { lemma_output_failure_persists(network, ptx.outputs@, k + 1); }
                return Err(e);
            },
        }
        proof {
            let m = output_models(network, *o)->Ok_0;
            assert(builder_outputs(tb) =~= before + m);
        }
        k = k + 1;
    }
    proof { assert(ptx.outputs@.take(k as int) =~= ptx.outputs@); }
    let heights = network.upgrade_heights();
    Ok(unsigned_tx(tb, &heights, ptx.height, ptx.expiry_height))
}

/// The views of a list of byte strings.
pub open spec fn byte_views(v: Seq<Vec<u8>>) -> Seq<Seq<u8>> {
    v.map_values(|b: Vec<u8>| b@)
}

/// The signature hashes of all inputs of `m`, in input order.
pub open spec fn all_sighashes(m: UnsignedModel) -> Seq<Seq<u8>> {
    Seq::new(m.inputs.len(), |k: int| sighash_of(m, k as nat))
}

/// The hash of each input of `t`, in input order, each 32 bytes long.
fn input_hashes(t: &UnsignedTx, inputs: &Vec<UTXO>, Ghost(key): Ghost<Seq<u8>>) -> (r: Vec<Vec<u8>>)
    requires
        unsigned_model(*t).branch != Branch::Sprout,
        input_models(key, inputs@) == Ok::<Seq<InputModel>, BuildFailure>(unsigned_model(*t).inputs),
    ensures
        byte_views(r@) == all_sighashes(unsigned_model(*t)),
        forall|k: int| 0 <= k < r@.len() ==> (#[trigger] r@[k])@.len() == 32,
{
    let ghost m = unsigned_model(*t);
    proof { lemma_input_models_entries(key, inputs@); }
    let mut hashes: Vec<Vec<u8>> = Vec::new();
    let mut index: usize = 0;
    while index < inputs.len()
        invariant
            m == unsigned_model(*t),
            m.branch != Branch::Sprout,
            m.inputs.len() == inputs@.len(),
            forall|j: int| 0 <= j < inputs@.len() ==> (#[trigger] input_model(key, inputs@[j])) is Ok
                && m.inputs[j] == input_model(key, inputs@[j])->Ok_0,
            index <= inputs@.len(),
            byte_views(hashes@) == all_sighashes(m).take(index as int),
            forall|k: int| 0 <= k < hashes@.len() ==> (#[trigger] hashes@[k])@.len() == 32,
        decreases inputs@.len() - index,
    {
        let inp = &inputs[index];
        proof { assert(input_model(key, inputs@[index as int]) is Ok); }
        let script = match decode_hexstring(inp.script.as_str()) {
            Ok(s) => s,
            Err(_) => return hashes,
        };
        let sighash = input_sighash(t, index, &script, inp.value);
        let ghost prev = hashes@;
        hashes.push(sighash);
        proof {
            assert(hashes@ == prev.push(sighash));
            assert(byte_views(prev.push(sighash)) =~= byte_views(prev).push(sighash@));
            assert(byte_views(hashes@) =~= all_sighashes(m).take(index + 1));
        }
        index = index + 1;
    }
    proof { assert(all_sighashes(m).take(index as int) =~= all_sighashes(m)); }
    hashes
}

/// What `build_ptx` owes: on success, `ptx` with the 32-byte identifier,
/// the version and the 32-byte signature hashes of its unsigned transaction;
/// otherwise the first failure, and a `GenericError` for a height below
/// every upgrade, where transactions cannot be hashed.
pub open spec fn build_outcome(vault: Seq<u8>, ptx: PartialTx, network: Network, r: Result<PartialTx, ZecError>) -> bool {
    match spec_build(vault, ptx, network) {
        Ok(m) => if m.branch == Branch::Sprout {
            r matches Err(e) && e is GenericError
        } else {
            r matches Ok(q) && q.txid@ == txid_of(m) && q.txid@.len() == 32
            && q.version == version_header_for(m.branch)
            && byte_views(q.sighashes@) == all_sighashes(m)
            && (forall|k: int| 0 <= k < q.sighashes@.len() ==> (#[trigger] q.sighashes@[k])@.len() == 32)
            && q.height == ptx.height && q.inputs == ptx.inputs && q.outputs == ptx.outputs
            && q.fee == ptx.fee && q.expiry_height == ptx.expiry_height
        },
        Err(f) => r matches Err(e) && reports(e, f),
    }
}

/// Builds the unsigned transaction that `ptx` describes and returns `ptx`
/// with its identifier, its version and the hash each input's signer must
/// sign, in input order.
pub fn build_ptx(vault: Vec<u8>, ptx: PartialTx, network: Network) -> (r: Result<PartialTx, ZecError>)
    ensures
        build_outcome(vault@, ptx, network, r),
{
    let unauthed_tx = build_unauthorized_tx(&vault, &ptx, network)?;
    if branch_at(&network.upgrade_heights(), ptx.height) == Branch::Sprout {
        return Err(ZecError::GenericError("no versioned transactions at this height".to_owned()));
    }
    let mut ptx = ptx;
    ptx.txid = txid_hash(&unauthed_tx);
    ptx.version = version_header(&unauthed_tx);
    ptx.sighashes = input_hashes(&unauthed_tx, &ptx.inputs, Ghost(compressed_key(vault@)));
    Ok(ptx)
}

/// Every signature of `sigs` is DER-encoded.
pub open spec fn all_der(sigs: Seq<Vec<u8>>) -> bool {
    forall|k: int| 0 <= k < sigs.len() ==> is_der_signature(#[trigger] sigs[k]@)
}

/// `r` is the encoding `e`, or a `GenericError` where the encoder refused.
pub open spec fn encoded_as(r: Result<Vec<u8>, ZecError>, e: Option<Seq<u8>>) -> bool {
    match e {
        Some(b) => r matches Ok(v) && v@ == b,
        None => r matches Err(x) && x is GenericError,
    }
}

/// `r` is a `GenericError` with the message `msg`.
pub open spec fn fails_with(r: Result<Vec<u8>, ZecError>, msg: Seq<char>) -> bool {
    r matches Err(e) && e matches ZecError::GenericError(m) && m@ == msg
}

/// What `apply_signatures` owes. The build's failure comes first, then a
/// height below every upgrade, a signature that does not parse, and
/// signatures on a transaction without transparent part. Otherwise the
/// result is the encoding of the transaction with the signatures as the
/// signing context places them, each on an input whose hash it verifies
/// against and none twice; signatures that sign the inputs one for one, in
/// order, are placed in that order.
pub open spec fn finalize_outcome(vault: Seq<u8>, ptx: PartialTx, network: Network, sigs: Seq<Vec<u8>>, r: Result<Vec<u8>, ZecError>) -> bool {
    let key = compressed_key(vault);
    match spec_build(vault, ptx, network) {
        Err(f) => r matches Err(e) && reports(e, f),
        Ok(m) => if m.branch == Branch::Sprout {
            fails_with(r, "no versioned transactions at this height"@)
        } else if !all_der(sigs) {
            fails_with(r, "invalid DER signature(s)"@)
        } else if m.inputs.len() == 0 && m.outputs.len() == 0 {
            if sigs.len() > 0 {
                fails_with(r, "Signatures provided but no transparent bundle in transaction"@)
            } else {
                encoded_as(r, signed_encoding(m, None))
            }
        } else {
            &&& match placed_signatures(all_sighashes(m), key, byte_views(sigs)) {
                None => r matches Err(e) && e is GenericError,
                Some(p) => encoded_as(r, signed_encoding(m, Some(p)))
                    && sigs.len() == m.inputs.len()
                    && placed_well(key, byte_views(sigs), all_sighashes(m), p),
            }
            &&& one_for_one(key, byte_views(sigs), all_sighashes(m))
                ==> placed_signatures(all_sighashes(m), key, byte_views(sigs)) == Some(keyed(byte_views(sigs), key))
        },
    }
}

/// Each input that a successful build registers is signed with the vault key.
proof fn lemma_inputs_keyed(key: Seq<u8>, s: Seq<UTXO>)
    requires
        input_models(key, s) is Ok,
    ensures
        forall|k: int| 0 <= k < input_models(key, s)->Ok_0.len()
            ==> (#[trigger] input_models(key, s)->Ok_0[k]).4 == key,
{
    lemma_input_models_entries(key, s);
    assert forall|k: int| 0 <= k < input_models(key, s)->Ok_0.len()
        implies (#[trigger] input_models(key, s)->Ok_0[k]).4 == key by {
        assert(input_model(key, s[k]) is Ok);
    }
}

/// Rebuilds the unsigned transaction that `ptx` describes, binds the
/// DER-encoded signatures to its inputs, checking each against the hashes
/// that `build_ptx` returns for the same arguments, and returns the
/// serialized signed transaction.
pub fn apply_signatures(vault: Vec<u8>, ptx: PartialTx, signatures_der: Vec<Vec<u8>>, network: Network) -> (r: Result<Vec<u8>, ZecError>)
    ensures
        finalize_outcome(vault@, ptx, network, signatures_der@, r),
{
    let unauthed_tx = match build_unauthorized_tx(&vault, &ptx, network) {
        Ok(t) => t,
        Err(e) => return Err(e),
    };
    let ghost m = unsigned_model(unauthed_tx);
    let key = match public_key_bytes(vault.as_slice()) {
        Some(k) => k,
        None => return Err(ZecError::InvalidVaultPubkey("not a secp256k1 public key".to_owned())),
    };
    if branch_at(&network.upgrade_heights(), ptx.height) == Branch::Sprout {
        return Err(ZecError::GenericError("no versioned transactions at this height".to_owned()));
    }
    let mut i: usize = 0;
    while i < signatures_der.len()
        invariant
            spec_build(vault@, ptx, network) == Ok::<UnsignedModel, BuildFailure>(m),
            m == unsigned_model(unauthed_tx),
            m.branch != Branch::Sprout,
            key@ == compressed_key(vault@),
            key@.len() == 33,
            i <= signatures_der@.len(),
            forall|k: int| 0 <= k < i ==> is_der_signature(#[trigger] signatures_der@[k]@),
        decreases signatures_der@.len() - i,
    {
        if !is_der(signatures_der[i].as_slice()) {
            return Err(ZecError::GenericError("invalid DER signature(s)".to_owned()));
        }
        i = i + 1;
    }
    let signed = if has_transparent_part(&unauthed_tx) {
        let hashes = input_hashes(&unauthed_tx, &ptx.inputs, Ghost(key@));
        assert(byte_views(hashes@).len() == hashes@.len());
        let mut fixed: Vec<[u8; 32]> = Vec::new();
        let mut k: usize = 0;
        while k < hashes.len()
            invariant
                spec_build(vault@, ptx, network) == Ok::<UnsignedModel, BuildFailure>(m),
                m == unsigned_model(unauthed_tx),
                m.branch != Branch::Sprout,
                m.inputs.len() > 0 || m.outputs.len() > 0,
                key@ == compressed_key(vault@),
                all_der(signatures_der@),
                byte_views(hashes@) == all_sighashes(m),
                hashes@.len() == m.inputs.len(),
                k <= hashes@.len(),
                fixed@.len() == k,
                forall|j: int| 0 <= j < hashes@.len() ==> (#[trigger] hashes@[j])@.len() == 32,
                forall|j: int| 0 <= j < k ==> (#[trigger] fixed@[j])@ == hashes@[j]@,
            decreases hashes@.len() - k,
        {
            match to_ba(hashes[k].as_slice()) {
                Ok(a) => fixed.push(a),
                Err(e) => return Err(e),
            }
            k = k + 1;
        }
        proof {
            lemma_inputs_keyed(key@, ptx.inputs@);
            assert forall|j: int| 0 <= j < fixed@.len() implies (#[trigger] fixed@[j])@ == all_sighashes(m)[j] by {
                assert(byte_views(hashes@)[j] == hashes@[j]@);
            }
            assert(hash_views(fixed@) =~= all_sighashes(m));
            let sv = byte_views(signatures_der@);
            if one_for_one(key@, sv, all_sighashes(m)) {
                assert forall|k: int| 0 <= k < signatures_der@.len()
                    implies valid_sig(key@, #[trigger] signatures_der@[k]@, fixed@[k]@) by {
                    assert(sv[k] == signatures_der@[k]@);
                }
                assert forall|k: int| 0 <= k < signatures_der@.len()
                    implies forall|j: int| 0 <= j < signatures_der@.len() && j != k
                        ==> !valid_sig(key@, #[trigger] signatures_der@[k]@, #[trigger] fixed@[j]@) by {
                    assert(sv[k] == signatures_der@[k]@);
                    assert forall|j: int| 0 <= j < signatures_der@.len() && j != k
                        implies !valid_sig(key@, signatures_der@[k]@, #[trigger] fixed@[j]@) by {
                        assert(fixed@[j]@ == all_sighashes(m)[j]);
                    }
                }
            }
        }
        match sign_transparent(&unauthed_tx, key.as_slice(), &fixed, &signatures_der) {
            Ok(part) => part,
            Err(msg) => return Err(ZecError::GenericError(msg)),
        }
    } else {
        if signatures_der.len() > 0 {
            return Err(ZecError::GenericError("Signatures provided but no transparent bundle in transaction".to_owned()));
        }
        no_signed_part()
    };
    match serialize_signed(unauthed_tx, signed) {
        Ok(bytes) => Ok(bytes),
        Err(msg) => Err(ZecError::GenericError(msg)),
    }
}

/// The identifier of the unsigned transaction that `ptx` describes, as 64
/// hex digits.
pub fn compute_txid(vault: Vec<u8>, ptx: PartialTx, network: Network) -> (r: Result<String, ZecError>)
    ensures
        match spec_build(vault@, ptx, network) {
            Ok(m) => if m.branch == Branch::Sprout {
                r matches Err(e) && e is GenericError
            } else {
                r matches Ok(s) && s@ == hex_text(txid_of(m)) && s@.len() == 64
            },
            Err(f) => r matches Err(e) && reports(e, f),
        },
{
    let unauthed_tx = build_unauthorized_tx(&vault, &ptx, network)?;
    if branch_at(&network.upgrade_heights(), ptx.height) == Branch::Sprout {
        return Err(ZecError::GenericError("no versioned transactions at this height".to_owned()));
    }
    let txid = txid_hash(&unauthed_tx);
    Ok(hex_encode(txid.as_slice()))
}

} // verus!
