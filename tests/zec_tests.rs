use secp256k1::{ecdsa::Signature, Message, PublicKey, Secp256k1, SecretKey};
use zcash_keys::address::Address;
use zcash_primitives::transaction::Transaction;
use zcash_protocol::consensus::{BlockHeight, BranchId, TestNetwork};
use zcash_transparent::address::TransparentAddress;

use zec::{
    apply_signatures, build_ptx, compute_txid, decode_hexstring, get_config, get_ovk, init_config,
    to_ba, to_hash, validate_address, Network, NetworkType, NetworkUpgrade, Output, PartialTx,
    ZecError, MAX_MONEY, UTXO,
};

const HEIGHT: u32 = 3_000_000;

fn secret(seed: u8) -> SecretKey {
    SecretKey::from_slice(&[seed; 32]).unwrap()
}

fn pubkey(seed: u8) -> PublicKey {
    PublicKey::from_secret_key(&Secp256k1::new(), &secret(seed))
}

fn key_hash(seed: u8) -> [u8; 20] {
    match TransparentAddress::from_pubkey(&pubkey(seed)) {
        TransparentAddress::PublicKeyHash(h) => h,
        TransparentAddress::ScriptHash(h) => h,
    }
}

fn p2pkh_script_hex(seed: u8) -> String {
    let mut s = vec![0x76u8, 0xa9, 0x14];
    s.extend_from_slice(&key_hash(seed));
    s.extend_from_slice(&[0x88, 0xac]);
    hex::encode(s)
}

fn taddr(seed: u8) -> String {
    Address::Transparent(TransparentAddress::PublicKeyHash(key_hash(seed))).encode(&TestNetwork)
}

fn utxo(txid_byte: u8, vout: u32, value: u64) -> UTXO {
    UTXO {
        txid: hex::encode([txid_byte; 32]),
        height: 100,
        vout,
        script: p2pkh_script_hex(1),
        value,
    }
}

fn ptx(inputs: Vec<UTXO>, outputs: Vec<Output>) -> PartialTx {
    PartialTx {
        height: HEIGHT,
        txid: vec![],
        inputs,
        outputs,
        fee: 10_000,
        sighashes: vec![],
        expiry_height: 0,
        version: 0,
    }
}

fn pay(seed: u8, amount: u64, memo: &str) -> Output {
    Output { address: taddr(seed), amount, memo: memo.to_string() }
}

fn scenario() -> PartialTx {
    ptx(vec![utxo(0xaa, 0, 100_000), utxo(0xbb, 1, 50_000)], vec![pay(2, 140_000, "hello")])
}

fn vault() -> Vec<u8> {
    pubkey(1).serialize().to_vec()
}

fn sign_all(sighashes: &[Vec<u8>]) -> Vec<Vec<u8>> {
    let secp = Secp256k1::new();
    sighashes
        .iter()
        .map(|h| {
            let msg = Message::from_digest(h.as_slice().try_into().unwrap());
            secp.sign_ecdsa(&msg, &secret(1)).serialize_der().to_vec()
        })
        .collect()
}

fn parse(bytes: &[u8]) -> Transaction {
    let branch = BranchId::for_height(&TestNetwork, BlockHeight::from_u32(HEIGHT));
    Transaction::read(bytes, branch).unwrap()
}

#[test]
fn scenario_two_inputs_one_output_with_memo() {
    let built = build_ptx(vault(), scenario(), Network::Test).unwrap();
    assert_eq!(built.sighashes.len(), 2);
    assert!(built.sighashes.iter().all(|h| h.len() == 32));
    assert_ne!(built.sighashes[0], built.sighashes[1]);
    assert_eq!(built.txid.len(), 32);
    assert_eq!(built.version & 0x7fff_ffff, 5);
    assert_eq!(built.fee, 10_000);

    let mut swapped = scenario();
    swapped.inputs.swap(0, 1);
    let built_swapped = build_ptx(vault(), swapped, Network::Test).unwrap();
    assert_ne!(built.txid, built_swapped.txid);

    let sigs = sign_all(&built.sighashes);
    let bytes = apply_signatures(vault(), scenario(), sigs, Network::Test).unwrap();
    let tx = parse(&bytes);
    let bundle = tx.transparent_bundle().unwrap();
    assert_eq!(bundle.vin.len(), 2);
    assert_eq!(bundle.vout.len(), 2);
    assert_eq!(u64::from(bundle.vout[0].value()), 140_000);
    assert_eq!(u64::from(bundle.vout[1].value()), 0);
    assert_eq!(bundle.vout[1].script_pubkey().0 .0, vec![0x6a, 5, b'h', b'e', b'l', b'l', b'o']);
}

#[test]
fn build_twice_gives_same_txid_and_sighashes() {
    let a = build_ptx(vault(), scenario(), Network::Test).unwrap();
    let b = build_ptx(vault(), scenario(), Network::Test).unwrap();
    assert_eq!(a.txid, b.txid);
    assert_eq!(a.sighashes, b.sighashes);
    assert_eq!(a.version, b.version);
}

#[test]
fn finalized_transaction_keeps_built_inputs_in_order() {
    let built = build_ptx(vault(), scenario(), Network::Test).unwrap();
    let sigs = sign_all(&built.sighashes);
    let bytes = apply_signatures(vault(), scenario(), sigs, Network::Test).unwrap();
    let tx = parse(&bytes);
    assert_eq!(tx.expiry_height(), BlockHeight::from_u32(0));
    assert_eq!(tx.lock_time(), 0);
    let vin = &tx.transparent_bundle().unwrap().vin;
    assert_eq!(vin[0].prevout().hash(), &[0xaa; 32]);
    assert_eq!(vin[0].prevout().n(), 0);
    assert_eq!(vin[1].prevout().hash(), &[0xbb; 32]);
    assert_eq!(vin[1].prevout().n(), 1);
}

#[test]
fn compute_txid_is_hex_of_built_txid() {
    let built = build_ptx(vault(), scenario(), Network::Test).unwrap();
    let id = compute_txid(vault(), scenario(), Network::Test).unwrap();
    assert_eq!(id, hex::encode(&built.txid));
}

#[test]
fn finalize_with_too_few_signatures_fails() {
    let built = build_ptx(vault(), scenario(), Network::Test).unwrap();
    let sigs = sign_all(&built.sighashes[..1]);
    let r = apply_signatures(vault(), scenario(), sigs, Network::Test);
    assert!(matches!(r, Err(ZecError::GenericError(_))));
}

#[test]
fn finalize_with_too_many_signatures_fails() {
    let built = build_ptx(vault(), scenario(), Network::Test).unwrap();
    let mut sigs = sign_all(&built.sighashes);
    sigs.push(sigs[0].clone());
    let r = apply_signatures(vault(), scenario(), sigs, Network::Test);
    assert!(matches!(r, Err(ZecError::GenericError(_))));
}

#[test]
fn finalize_without_inputs_refuses_signatures() {
    let p = ptx(vec![], vec![pay(2, 1_000, "")]);
    let built = build_ptx(vault(), scenario(), Network::Test).unwrap();
    let sigs = sign_all(&built.sighashes[..1]);
    let r = apply_signatures(vault(), p, sigs, Network::Test);
    assert!(matches!(r, Err(ZecError::GenericError(_))));

    let empty = ptx(vec![], vec![]);
    let sigs = sign_all(&built.sighashes[..1]);
    let r = apply_signatures(vault(), empty, sigs, Network::Test);
    assert!(matches!(r, Err(ZecError::GenericError(_))));
}

#[test]
fn finalize_rejects_malformed_der() {
    let r = apply_signatures(vault(), scenario(), vec![vec![1, 2, 3]], Network::Test);
    assert!(matches!(r, Err(ZecError::GenericError(_))));
}

#[test]
fn finalize_rejects_signature_from_other_key() {
    let built = build_ptx(vault(), scenario(), Network::Test).unwrap();
    let secp = Secp256k1::new();
    let sigs: Vec<Vec<u8>> = built
        .sighashes
        .iter()
        .map(|h| {
            let msg = Message::from_digest(h.as_slice().try_into().unwrap());
            let s: Signature = secp.sign_ecdsa(&msg, &secret(7));
            s.serialize_der().to_vec()
        })
        .collect();
    let r = apply_signatures(vault(), scenario(), sigs, Network::Test);
    assert!(matches!(r, Err(ZecError::GenericError(_))));
}

#[test]
fn validate_transparent_address() {
    assert_eq!(validate_address(taddr(3), Network::Test), Ok(()));
}

#[test]
fn validate_tex_address() {
    let tex = Address::Tex(key_hash(3)).encode(&TestNetwork);
    assert_eq!(
        validate_address(tex.clone(), Network::Test),
        Err(ZecError::InvalidAddressType(tex))
    );
}

#[test]
fn validate_bad_checksum() {
    let mut a = taddr(3);
    let last = a.pop().unwrap();
    a.push(if last == 'a' { 'b' } else { 'a' });
    assert_eq!(validate_address(a.clone(), Network::Test), Err(ZecError::InvalidFormat(a)));
    assert_eq!(
        validate_address("hello".to_string(), Network::Test),
        Err(ZecError::InvalidFormat("hello".to_string()))
    );
}

#[test]
fn validate_address_of_other_network() {
    let main = Address::Transparent(TransparentAddress::PublicKeyHash(key_hash(3)))
        .encode(&zcash_protocol::consensus::MainNetwork);
    assert_eq!(validate_address(main.clone(), Network::Main), Ok(()));
    assert_eq!(validate_address(main.clone(), Network::Test), Err(ZecError::InvalidFormat(main)));
}

#[test]
fn output_to_tex_address_is_refused() {
    let tex = Address::Tex(key_hash(3)).encode(&TestNetwork);
    let p = ptx(vec![utxo(0xaa, 0, 100_000)], vec![Output { address: tex.clone(), amount: 1, memo: String::new() }]);
    let r = build_ptx(vault(), p, Network::Test);
    assert_eq!(r.unwrap_err(), ZecError::InvalidAddress(tex));
}

#[test]
fn output_to_undecodable_address_is_refused() {
    let p = ptx(vec![utxo(0xaa, 0, 100_000)], vec![Output { address: "nope".to_string(), amount: 1, memo: String::new() }]);
    let r = build_ptx(vault(), p, Network::Test);
    assert_eq!(r.unwrap_err(), ZecError::InvalidAddress("nope".to_string()));
}

#[test]
fn input_value_above_max_is_invalid_amount() {
    let p = ptx(vec![utxo(0xaa, 0, 100_000), utxo(0xbb, 0, MAX_MONEY + 1)], vec![pay(2, 1, "")]);
    let r = build_ptx(vault(), p, Network::Test);
    assert_eq!(r.unwrap_err(), ZecError::InvalidAmount(MAX_MONEY + 1));
}

#[test]
fn output_amount_above_max_is_invalid_amount() {
    let p = ptx(vec![utxo(0xaa, 0, 100_000)], vec![pay(2, 1, ""), pay(2, u64::MAX, "")]);
    let r = build_ptx(vault(), p, Network::Test);
    assert_eq!(r.unwrap_err(), ZecError::InvalidAmount(u64::MAX));
}

#[test]
fn max_money_is_accepted() {
    let p = ptx(vec![utxo(0xaa, 0, MAX_MONEY)], vec![pay(2, MAX_MONEY, "")]);
    assert!(build_ptx(vault(), p, Network::Test).is_ok());
}

#[test]
fn empty_memo_adds_no_output() {
    let p = ptx(vec![utxo(0xaa, 0, 100_000)], vec![pay(2, 90_000, ""), pay(3, 1_000, "m")]);
    let built = build_ptx(vault(), p.clone(), Network::Test).unwrap();
    let bytes = apply_signatures(vault(), p, sign_all(&built.sighashes), Network::Test).unwrap();
    let tx = parse(&bytes);
    let vout = &tx.transparent_bundle().unwrap().vout;
    assert_eq!(vout.len(), 3);
    assert_eq!(u64::from(vout[0].value()), 90_000);
    assert_eq!(u64::from(vout[1].value()), 1_000);
    assert_eq!(u64::from(vout[2].value()), 0);
}

#[test]
fn memo_longer_than_null_data_limit_is_refused() {
    let long = "x".repeat(81);
    let p = ptx(vec![utxo(0xaa, 0, 100_000)], vec![pay(2, 1_000, &long)]);
    assert!(matches!(build_ptx(vault(), p, Network::Test), Err(ZecError::GenericError(_))));
    let ok = "x".repeat(80);
    let p = ptx(vec![utxo(0xaa, 0, 100_000)], vec![pay(2, 1_000, &ok)]);
    assert!(build_ptx(vault(), p, Network::Test).is_ok());
}

#[test]
fn invalid_vault_key_is_refused() {
    let r = build_ptx(vec![1, 2, 3], scenario(), Network::Test);
    assert!(matches!(r, Err(ZecError::InvalidVaultPubkey(_))));
}

#[test]
fn input_not_locked_to_vault_key_is_refused() {
    let mut p = scenario();
    p.inputs[1].script = p2pkh_script_hex(9);
    assert!(matches!(build_ptx(vault(), p, Network::Test), Err(ZecError::GenericError(_))));
}

#[test]
fn malformed_hex_is_generic_error() {
    let mut p = scenario();
    p.inputs[0].txid = "zz".to_string();
    assert!(matches!(build_ptx(vault(), p, Network::Test), Err(ZecError::GenericError(_))));
    let mut p = scenario();
    p.inputs[0].script = "abc".to_string();
    assert!(matches!(build_ptx(vault(), p, Network::Test), Err(ZecError::GenericError(_))));
}

#[test]
fn ovk_is_a_pure_function_of_the_key() {
    let a = get_ovk(vault()).unwrap();
    let b = get_ovk(vault()).unwrap();
    let c = get_ovk(pubkey(2).serialize().to_vec()).unwrap();
    assert_eq!(a.len(), 32);
    assert_eq!(a, b);
    assert_ne!(a, c);
    assert_ne!(a, vault()[..32].to_vec());
}

#[test]
fn to_hash_reverses_display_order() {
    let mut s = String::new();
    for i in 0..32u8 {
        s.push_str(&format!("{:02x}", i));
    }
    let h = to_hash(&s).unwrap();
    for i in 0..32usize {
        assert_eq!(h[i], (31 - i) as u8);
    }
    assert!(matches!(to_hash("00ff"), Err(ZecError::GenericError(_))));
    assert!(matches!(to_hash("xy"), Err(ZecError::GenericError(_))));
}

#[test]
fn hex_and_array_helpers() {
    assert_eq!(decode_hexstring("0aFf").unwrap(), vec![0x0a, 0xff]);
    assert_eq!(decode_hexstring("0"), Err(ZecError::GenericError("Invalid Hex string".to_string())));
    assert_eq!(to_ba(&[7u8; 32]).unwrap(), [7u8; 32]);
    assert!(to_ba(&[7u8; 31]).is_err());
}

#[test]
fn network_parameters() {
    assert_eq!(Network::Regtest.activation_height(NetworkUpgrade::Nu6), Some(1));
    assert_eq!(Network::Main.activation_height(NetworkUpgrade::Nu5), Some(1_687_104));
    assert_eq!(Network::Test.activation_height(NetworkUpgrade::Overwinter), Some(207_500));
    assert_eq!(Network::Test.network_type(), NetworkType::Test);
    assert_eq!(Network::Regtest.network_type(), NetworkType::Regtest);
}

fn regtest_params() -> zcash_protocol::local_consensus::LocalNetwork {
    zcash_protocol::local_consensus::LocalNetwork {
        overwinter: None,
        sapling: None,
        blossom: None,
        heartwood: None,
        canopy: None,
        nu5: None,
        nu6: None,
        nu6_1: None,
        nu6_2: None,
        nu6_3: None,
    }
}

#[test]
fn regtest_builds_at_low_height() {
    let addr = Address::Transparent(TransparentAddress::PublicKeyHash(key_hash(2)))
        .encode(&regtest_params());
    let mut p = ptx(vec![utxo(0xaa, 0, 100_000)], vec![Output { address: addr, amount: 5, memo: String::new() }]);
    p.height = 10;
    p.expiry_height = 40;
    let built = build_ptx(vault(), p, Network::Regtest).unwrap();
    assert_eq!(built.sighashes.len(), 1);
    assert_eq!(built.expiry_height, 40);
}

#[test]
fn config_handle() {
    let c = init_config().unwrap();
    assert!(get_config(Some(&c)).is_ok());
    assert_eq!(get_config(None).unwrap_err(), ZecError::InitError("Config not initialized.".to_string()));
}

fn sapling_address() -> String {
    let usk = zcash_keys::keys::UnifiedSpendingKey::from_seed(&TestNetwork, &[7u8; 32], Default::default()).unwrap();
    let pa = usk.sapling().default_address().1;
    Address::Sapling(pa).encode(&TestNetwork)
}

#[test]
fn validate_sapling_address_is_unsupported() {
    let sapling = sapling_address();
    assert_eq!(
        validate_address(sapling.clone(), Network::Test),
        Err(ZecError::UnsupportedAddressType(sapling))
    );
}

#[test]
fn output_to_sapling_address_is_invalid_address() {
    let a = sapling_address();
    let p = ptx(vec![utxo(0xaa, 0, 100_000)], vec![Output { address: a.clone(), amount: 1, memo: String::new() }]);
    assert_eq!(build_ptx(vault(), p, Network::Test).unwrap_err(), ZecError::InvalidAddress(a));
}

#[test]
fn height_below_every_upgrade_is_generic_error() {
    let mut p = scenario();
    p.height = 100;
    assert!(matches!(build_ptx(vault(), p, Network::Test), Err(ZecError::GenericError(_))));
    let mut p = scenario();
    p.height = 100;
    assert!(matches!(compute_txid(vault(), p, Network::Test), Err(ZecError::GenericError(_))));
    let mut p = scenario();
    p.height = 100;
    p.inputs[0].value = MAX_MONEY + 1;
    assert_eq!(build_ptx(vault(), p, Network::Test).unwrap_err(), ZecError::InvalidAmount(MAX_MONEY + 1));
}

#[test]
fn finalize_twice_gives_same_bytes() {
    let built = build_ptx(vault(), scenario(), Network::Test).unwrap();
    let a = apply_signatures(vault(), scenario(), sign_all(&built.sighashes), Network::Test).unwrap();
    let b = apply_signatures(vault(), scenario(), sign_all(&built.sighashes), Network::Test).unwrap();
    assert_eq!(a, b);
}

#[test]
fn validate_script_hash_address_is_unsupported() {
    let p2sh = Address::Transparent(TransparentAddress::ScriptHash([5u8; 20])).encode(&TestNetwork);
    assert_eq!(
        validate_address(p2sh.clone(), Network::Test),
        Err(ZecError::UnsupportedAddressType(p2sh))
    );
}

#[test]
fn uncompressed_vault_key_builds_like_compressed() {
    let full = pubkey(1).serialize_uncompressed().to_vec();
    let a = build_ptx(full.clone(), scenario(), Network::Test).unwrap();
    let b = build_ptx(vault(), scenario(), Network::Test).unwrap();
    assert_eq!(a.sighashes, b.sighashes);
    let bytes = apply_signatures(full, scenario(), sign_all(&a.sighashes), Network::Test).unwrap();
    let c = apply_signatures(vault(), scenario(), sign_all(&b.sighashes), Network::Test).unwrap();
    assert_eq!(bytes, c);
}

#[test]
fn signatures_in_swapped_order_are_placed_by_hash() {
    let built = build_ptx(vault(), scenario(), Network::Test).unwrap();
    let mut sigs = sign_all(&built.sighashes);
    let in_order = apply_signatures(vault(), scenario(), sigs.clone(), Network::Test).unwrap();
    sigs.swap(0, 1);
    let swapped = apply_signatures(vault(), scenario(), sigs, Network::Test).unwrap();
    assert_eq!(in_order, swapped);
}

#[test]
fn signatures_over_another_transaction_fail() {
    let mut other = scenario();
    other.outputs[0].amount = 139_000;
    let built_other = build_ptx(vault(), other, Network::Test).unwrap();
    let r = apply_signatures(vault(), scenario(), sign_all(&built_other.sighashes), Network::Test);
    assert!(matches!(r, Err(ZecError::GenericError(_))));
}

#[test]
fn error_messages() {
    assert_eq!(to_ba(&[1u8; 3]).unwrap_err(), ZecError::GenericError("fail to convert slice to array of size 32".to_string()));
    assert_eq!(to_hash("zz").unwrap_err(), ZecError::GenericError("Invalid Hex string".to_string()));
    let r = apply_signatures(vault(), scenario(), vec![vec![1, 2, 3]], Network::Test);
    assert_eq!(r.unwrap_err(), ZecError::GenericError("invalid DER signature(s)".to_string()));
    let mut p = scenario();
    p.inputs[1].script = p2pkh_script_hex(9);
    assert_eq!(build_ptx(vault(), p, Network::Test).unwrap_err(), ZecError::GenericError("Failed to add transparent input".to_string()));
    let r = apply_signatures(vault(), ptx(vec![], vec![]), sign_all(&[vec![7u8; 32]]), Network::Test);
    assert_eq!(r.unwrap_err(), ZecError::GenericError("Signatures provided but no transparent bundle in transaction".to_string()));
}
