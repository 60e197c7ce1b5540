use vstd::prelude::*;

use zcash_protocol::local_consensus::LocalNetwork;

use zcash_protocol::consensus::{BlockHeight, MainNetwork, NetworkUpgrade as ZNetworkUpgrade, Parameters, TestNetwork};

verus! {

/// The network a transaction is built for.
#[derive(Clone, Copy, Debug, PartialEq, Eq, Structural)]
pub enum Network {
    Main,
    Test,
    Regtest,
}

/// The identity of a network.
#[derive(Clone, Copy, Debug, PartialEq, Eq, Structural)]
pub enum NetworkType {
    Main,
    Test,
    Regtest,
}

/// The protocol upgrades that change transaction encoding or hashing.
#[allow(non_camel_case_types)]
#[derive(Clone, Copy, Debug, PartialEq, Eq, Structural)]
pub enum NetworkUpgrade {
    Overwinter,
    Sapling,
    Blossom,
    Heartwood,
    Canopy,
    Nu5,
    Nu6,
    Nu6_1,
    Nu6_2,
    Nu6_3,
}

#[verifier::external_type_specification]
#[verifier::external_body]
pub struct ExNetworkUpgrade(ZNetworkUpgrade);

/// Activation height of each upgrade on the public main network.
pub open spec fn main_activation(nu: NetworkUpgrade) -> u32 {
    match nu {
        NetworkUpgrade::Overwinter => 347_500,
        NetworkUpgrade::Sapling => 419_200,
        NetworkUpgrade::Blossom => 653_600,
        NetworkUpgrade::Heartwood => 903_000,
        NetworkUpgrade::Canopy => 1_046_400,
        NetworkUpgrade::Nu5 => 1_687_104,
        NetworkUpgrade::Nu6 => 2_726_400,
        NetworkUpgrade::Nu6_1 => 3_146_400,
        NetworkUpgrade::Nu6_2 => 3_364_600,
        NetworkUpgrade::Nu6_3 => 3_428_143,
    }
}

/// Activation height of each upgrade on the public test network.
pub open spec fn test_activation(nu: NetworkUpgrade) -> u32 {
    match nu {
        NetworkUpgrade::Overwinter => 207_500,
        NetworkUpgrade::Sapling => 280_000,
        NetworkUpgrade::Blossom => 584_000,
        NetworkUpgrade::Heartwood => 903_800,
        NetworkUpgrade::Canopy => 1_028_500,
        NetworkUpgrade::Nu5 => 1_842_420,
        NetworkUpgrade::Nu6 => 2_976_000,
        NetworkUpgrade::Nu6_1 => 3_536_500,
        NetworkUpgrade::Nu6_2 => 4_052_000,
        NetworkUpgrade::Nu6_3 => 4_134_000,
    }
}

/// Height at which every upgrade activates on the local test network.
pub const REGTEST_ACTIVATION: u32 = 1;

/// Activation height of `nu` on `net`.
pub open spec fn spec_activation_height(net: Network, nu: NetworkUpgrade) -> Option<u32> {
    match net {
        Network::Main => Some(main_activation(nu)),
        Network::Test => Some(test_activation(nu)),
        Network::Regtest => Some(REGTEST_ACTIVATION),
    }
}

/// The activation height of every upgrade, as plain values.
#[derive(Clone, Copy, Debug, PartialEq, Eq, Structural)]
pub struct UpgradeHeights {
    pub overwinter: Option<u32>,
    pub sapling: Option<u32>,
    pub blossom: Option<u32>,
    pub heartwood: Option<u32>,
    pub canopy: Option<u32>,
    pub nu5: Option<u32>,
    pub nu6: Option<u32>,
    pub nu6_1: Option<u32>,
    pub nu6_2: Option<u32>,
    pub nu6_3: Option<u32>,
}

/// The table of activation heights of `net`.
pub open spec fn spec_upgrade_heights(net: Network) -> UpgradeHeights {
    UpgradeHeights {
        overwinter: spec_activation_height(net, NetworkUpgrade::Overwinter),
        sapling: spec_activation_height(net, NetworkUpgrade::Sapling),
        blossom: spec_activation_height(net, NetworkUpgrade::Blossom),
        heartwood: spec_activation_height(net, NetworkUpgrade::Heartwood),
        canopy: spec_activation_height(net, NetworkUpgrade::Canopy),
        nu5: spec_activation_height(net, NetworkUpgrade::Nu5),
        nu6: spec_activation_height(net, NetworkUpgrade::Nu6),
        nu6_1: spec_activation_height(net, NetworkUpgrade::Nu6_1),
        nu6_2: spec_activation_height(net, NetworkUpgrade::Nu6_2),
        nu6_3: spec_activation_height(net, NetworkUpgrade::Nu6_3),
    }
}

/// The consensus branches, one per set of validation and encoding rules.
#[allow(non_camel_case_types)]
#[derive(Clone, Copy, Debug, PartialEq, Eq, Structural)]
pub enum Branch {
    Sprout,
    Overwinter,
    Sapling,
    Blossom,
    Heartwood,
    Canopy,
    Nu5,
    Nu6,
    Nu6_1,
    Nu6_2,
    Nu6_3,
}

/// An upgrade that activates at `a` is in force at `height`.
pub open spec fn active(a: Option<u32>, height: u32) -> bool {
    a matches Some(x) && x <= height
}

/// The branch in force at `height`: that of the latest upgrade active there,
/// and the original rules below every upgrade.
pub open spec fn branch_for(h: UpgradeHeights, height: u32) -> Branch {
    if active(h.nu6_3, height) {
        Branch::Nu6_3
    } else if active(h.nu6_2, height) {
        Branch::Nu6_2
    } else if active(h.nu6_1, height) {
        Branch::Nu6_1
    } else if active(h.nu6, height) {
        Branch::Nu6
    } else if active(h.nu5, height) {
        Branch::Nu5
    } else if active(h.canopy, height) {
        Branch::Canopy
    } else if active(h.heartwood, height) {
        Branch::Heartwood
    } else if active(h.blossom, height) {
        Branch::Blossom
    } else if active(h.sapling, height) {
        Branch::Sapling
    } else if active(h.overwinter, height) {
        Branch::Overwinter
    } else {
        Branch::Sprout
    }
}

/// The version header of the transactions suggested for branch `b`: the
/// version number, with the top bit set once versioned transactions exist.
pub open spec fn version_header_for(b: Branch) -> u32 {
    match b {
        Branch::Sprout => 2,
        Branch::Overwinter => 0x8000_0003,
        Branch::Sapling | Branch::Blossom | Branch::Heartwood | Branch::Canopy => 0x8000_0004,
        Branch::Nu5 | Branch::Nu6 | Branch::Nu6_1 | Branch::Nu6_2 => 0x8000_0005,
        Branch::Nu6_3 => 0x8000_0006,
    }
}

fn is_active(a: Option<u32>, height: u32) -> (r: bool)
    ensures
        r == active(a, height),
{
    match a {
        Some(x) => x <= height,
        None => false,
    }
}

/// The branch in force at `height` under the activation heights `h`.
pub fn branch_at(h: &UpgradeHeights, height: u32) -> (r: Branch)
    ensures
        r == branch_for(*h, height),
{
    if is_active(h.nu6_3, height) {
        Branch::Nu6_3
    } else if is_active(h.nu6_2, height) {
        Branch::Nu6_2
    } else if is_active(h.nu6_1, height) {
        Branch::Nu6_1
    } else if is_active(h.nu6, height) {
        Branch::Nu6
    } else if is_active(h.nu5, height) {
        Branch::Nu5
    } else if is_active(h.canopy, height) {
        Branch::Canopy
    } else if is_active(h.heartwood, height) {
        Branch::Heartwood
    } else if is_active(h.blossom, height) {
        Branch::Blossom
    } else if is_active(h.sapling, height) {
        Branch::Sapling
    } else if is_active(h.overwinter, height) {
        Branch::Overwinter
    } else {
        Branch::Sprout
    }
}

/// Relies on `MainNetwork::activation_height` of zcash_protocol: the
/// published main network activation heights.
#[verifier::external_body]
fn main_activation_height(nu: NetworkUpgrade) -> (r: Option<u32>)
    ensures
        r == Some(main_activation(nu)),
{
    MainNetwork.activation_height(nu.into_zcash()).map(u32::from)
}

/// Relies on `TestNetwork::activation_height` of zcash_protocol: the
/// published test network activation heights.
#[verifier::external_body]
fn test_activation_height(nu: NetworkUpgrade) -> (r: Option<u32>)
    ensures
        r == Some(test_activation(nu)),
{
    TestNetwork.activation_height(nu.into_zcash()).map(u32::from)
}

#[verifier::external_type_specification]
#[verifier::external_body]
pub struct ExLocalNetwork(LocalNetwork);

/// The consensus parameters of zcash_protocol with the activation heights `h`.
#[verifier::external_body]
pub(crate) fn local_network(h: &UpgradeHeights) -> LocalNetwork {
    let b = |v: Option<u32>| v.map(BlockHeight::from_u32);
    LocalNetwork {
        overwinter: b(h.overwinter), sapling: b(h.sapling), blossom: b(h.blossom),
        heartwood: b(h.heartwood), canopy: b(h.canopy), nu5: b(h.nu5), nu6: b(h.nu6),
        nu6_1: b(h.nu6_1), nu6_2: b(h.nu6_2), nu6_3: b(h.nu6_3),
    }
}

impl NetworkUpgrade {
    /// The same upgrade, as zcash_protocol names it.
    #[verifier::external_body]
    fn into_zcash(self) -> ZNetworkUpgrade {
        match self {
            NetworkUpgrade::Overwinter => ZNetworkUpgrade::Overwinter,
            NetworkUpgrade::Sapling => ZNetworkUpgrade::Sapling,
            NetworkUpgrade::Blossom => ZNetworkUpgrade::Blossom,
            NetworkUpgrade::Heartwood => ZNetworkUpgrade::Heartwood,
            NetworkUpgrade::Canopy => ZNetworkUpgrade::Canopy,
            NetworkUpgrade::Nu5 => ZNetworkUpgrade::Nu5,
            NetworkUpgrade::Nu6 => ZNetworkUpgrade::Nu6,
            NetworkUpgrade::Nu6_1 => ZNetworkUpgrade::Nu6_1,
            NetworkUpgrade::Nu6_2 => ZNetworkUpgrade::Nu6_2,
            NetworkUpgrade::Nu6_3 => ZNetworkUpgrade::Nu6_3,
        }
    }
}

impl Network {
    /// The identity of this network.
    pub fn network_type(&self) -> (r: NetworkType)
        ensures
            *self == Network::Main <==> r == NetworkType::Main,
            *self == Network::Test <==> r == NetworkType::Test,
            *self == Network::Regtest <==> r == NetworkType::Regtest,
    {
        match self {
            Network::Main => NetworkType::Main,
            Network::Test => NetworkType::Test,
            Network::Regtest => NetworkType::Regtest,
        }
    }

    /// The height at which `nu` activates on this network.
    pub fn activation_height(&self, nu: NetworkUpgrade) -> (r: Option<u32>)
        ensures
            r == spec_activation_height(*self, nu),
    {
        match self {
            Network::Main => main_activation_height(nu),
            Network::Test => test_activation_height(nu),
            Network::Regtest => Some(REGTEST_ACTIVATION),
        }
    }

    /// The activation heights of all upgrades on this network.
    pub fn upgrade_heights(&self) -> (r: UpgradeHeights)
        ensures
            r == spec_upgrade_heights(*self),
    {
        UpgradeHeights {
            overwinter: self.activation_height(NetworkUpgrade::Overwinter),
            sapling: self.activation_height(NetworkUpgrade::Sapling),
            blossom: self.activation_height(NetworkUpgrade::Blossom),
            heartwood: self.activation_height(NetworkUpgrade::Heartwood),
            canopy: self.activation_height(NetworkUpgrade::Canopy),
            nu5: self.activation_height(NetworkUpgrade::Nu5),
            nu6: self.activation_height(NetworkUpgrade::Nu6),
            nu6_1: self.activation_height(NetworkUpgrade::Nu6_1),
            nu6_2: self.activation_height(NetworkUpgrade::Nu6_2),
            nu6_3: self.activation_height(NetworkUpgrade::Nu6_3),
        }
    }
}

} // verus!
