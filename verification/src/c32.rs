use vstd::prelude::*;

verus! {

/// Address version byte of a mainnet single-signature account ('P').
pub const C32_ADDRESS_VERSION_MAINNET_SINGLESIG: u8 = 22;

/// Address version byte of a mainnet multi-signature account ('M').
pub const C32_ADDRESS_VERSION_MAINNET_MULTISIG: u8 = 20;

/// Address version byte of a testnet single-signature account ('T').
pub const C32_ADDRESS_VERSION_TESTNET_SINGLESIG: u8 = 26;

/// Address version byte of a testnet multi-signature account ('N').
pub const C32_ADDRESS_VERSION_TESTNET_MULTISIG: u8 = 21;

} // verus!
