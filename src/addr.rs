use vstd::prelude::*;

use zcash_keys::address::Address;
use zcash_protocol::consensus::{MainNetwork, TestNetwork};
use zcash_transparent::address::TransparentAddress;

use crate::error::ZecError;
use crate::network::{local_network, Network, UpgradeHeights};

verus! {

#[verifier::external_type_specification]
#[verifier::external_body]
pub struct ExTransparentAddress(TransparentAddress);

/// A transparent receiver: the 20-byte hash of a public key, or of a script.
#[derive(Clone, Copy, Debug)]
pub struct TransparentReceiver {
    pub script_hash: bool,
    pub hash: [u8; 20],
}

/// What an address text decodes to on a network. Every family the address
/// codec knows has its own variant, so a new family needs a decision here.
#[derive(Clone, Copy, Debug)]
pub enum DecodedAddress {
    /// Not an address of this network (bad format, checksum or network).
    Undecodable,
    /// A single transparent receiver.
    Transparent(TransparentReceiver),
    /// A transparent-source-only address.
    Tex,
    /// A shielded payment address.
    Sapling,
    /// A unified address, with its transparent receiver if it has one.
    Unified(Option<TransparentReceiver>),
}

/// What the address codec decodes `s` to on `net`.
pub uninterp spec fn decoded_address(net: Network, s: Seq<char>) -> DecodedAddress;

/// The locking script that pays `r`.
pub open spec fn receiver_script(r: TransparentReceiver) -> Seq<u8> {
    if r.script_hash {
        seq![0xa9u8, 0x14u8] + r.hash@ + seq![0x87u8]
    } else {
        seq![0x76u8, 0xa9u8, 0x14u8] + r.hash@ + seq![0x88u8, 0xacu8]
    }
}

/// The transparent receiver that an output to a decoded address pays, if the
/// address is one this library pays.
pub open spec fn payable_receiver(d: DecodedAddress) -> Option<TransparentReceiver> {
    match d {
        DecodedAddress::Transparent(t) => Some(t),
        DecodedAddress::Unified(Some(t)) => Some(t),
        _ => None,
    }
}

/// Relies on `Address::decode` of zcash_keys, which reads only the network
/// type from the parameters (so `regtest` does not change the result), and
/// on `UnifiedAddress::transparent`.
#[verifier::external_body]
pub(crate) fn decode_address(net: Network, regtest: UpgradeHeights, s: &str) -> (r: DecodedAddress)
    ensures
        r == decoded_address(net, s@),
{
    let a = match net {
        Network::Main => Address::decode(&MainNetwork, s),
        Network::Test => Address::decode(&TestNetwork, s),
        Network::Regtest => Address::decode(&local_network(&regtest), s),
    };
    match a {
        None => DecodedAddress::Undecodable,
        Some(Address::Transparent(t)) => DecodedAddress::Transparent(receiver_of(&t)),
        Some(Address::Tex(_)) => DecodedAddress::Tex,
        Some(Address::Sapling(_)) => DecodedAddress::Sapling,
        Some(Address::Unified(u)) => DecodedAddress::Unified(u.transparent().map(receiver_of)),
    }
}

/// The receiver held by a transparent address of zcash_transparent.
#[verifier::external_body]
fn receiver_of(t: &TransparentAddress) -> TransparentReceiver {
    match t {
        TransparentAddress::PublicKeyHash(hash) => TransparentReceiver { script_hash: false, hash: *hash },
        TransparentAddress::ScriptHash(hash) => TransparentReceiver { script_hash: true, hash: *hash },
    }
}

/// The transparent address of zcash_transparent that holds `r`.
#[verifier::external_body]
pub(crate) fn transparent_address(r: &TransparentReceiver) -> TransparentAddress {
    match r.script_hash {
        false => TransparentAddress::PublicKeyHash(r.hash),
        true => TransparentAddress::ScriptHash(r.hash),
    }
}

/// Checks that `address` is a single-key transparent address of `network`.
/// A TEX address gives `InvalidAddressType`, one that does not decode
/// `InvalidFormat`, and any other decodable address (a script-hash address
/// among them) `UnsupportedAddressType`; each error carries the address.
pub fn validate_address(address: String, network: Network) -> (r: Result<(), ZecError>)
    ensures
        r is Ok <==> (decoded_address(network, address@) matches DecodedAddress::Transparent(t) && !t.script_hash),
        r matches Err(e) ==> match decoded_address(network, address@) {
            DecodedAddress::Tex => e == ZecError::InvalidAddressType(address),
            DecodedAddress::Undecodable => e == ZecError::InvalidFormat(address),
            _ => e == ZecError::UnsupportedAddressType(address),
        },
{
    let d = decode_address(network, Network::Regtest.upgrade_heights(), address.as_str());
    match d {
        DecodedAddress::Tex => Err(ZecError::InvalidAddressType(address)),
        DecodedAddress::Transparent(t) => if t.script_hash {
            Err(ZecError::UnsupportedAddressType(address))
        } else {
            Ok(())
        },
        DecodedAddress::Undecodable => Err(ZecError::InvalidFormat(address)),
        DecodedAddress::Sapling => Err(ZecError::UnsupportedAddressType(address)),
        DecodedAddress::Unified(_) => Err(ZecError::UnsupportedAddressType(address)),
    }
}

} // verus!
