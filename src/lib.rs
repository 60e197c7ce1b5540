//! Construction, signature hashing and finalization of transparent Zcash
//! transactions whose keys are held by an outside signer.

pub mod addr;
pub mod config;
pub mod error;
pub mod hexcodec;
pub mod laws;
pub mod network;
pub mod tx;

pub use addr::{validate_address, DecodedAddress, TransparentReceiver};
pub use config::{get_config, init_config, Config};
pub use error::ZecError;
pub use network::{Network, NetworkType, NetworkUpgrade};
pub use tx::{
    apply_signatures, build_ptx, compute_txid, decode_hexstring, get_ovk, to_ba, to_hash, Output,
    PartialTx, TxBytes, MAX_MONEY, UTXO,
};
