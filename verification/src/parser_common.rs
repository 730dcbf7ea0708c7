use vstd::prelude::*;

use crate::c32;
use crate::error::ParserError;
use crate::nom_calls::{be_u32_value, nom_be_u32, nom_le_u8, nom_take};

verus! {

/// The max len for asset, contract and clarity names.
pub const MAX_STRING_LEN: u8 = 128;

pub const HASH160_LEN: usize = 20;

pub const STACKS_ADDR_LEN: usize = HASH160_LEN + 1;

/// The conversion constant between microSTX and STX.
pub const STX_DECIMALS: u8 = 6;

pub const C32_ENCODED_ADDRS_LENGTH: usize = 48;

/// The number of post conditions that can be handled.
pub const NUM_SUPPORTED_POST_CONDITIONS: usize = 16;

pub const SIGNATURE_LEN: usize = 65;

pub const MAX_STACKS_STRING_LEN: usize = 256;

pub const TOKEN_TRANSFER_MEMO_LEN: usize = 34;

/// What a parser returns: the unread rest of the input and the parsed value,
/// or the error that stopped it.
pub type ParseResult<'a, T> = Result<(&'a [u8], T), ParserError>;

/// The mathematical counterpart of [`ParseResult`]: the unread rest of the
/// input and the view of the parsed value.
pub type SpecParse<V> = Result<(Seq<u8>, V), ParserError>;

/// A parse result seen through the views of its parts.
pub open spec fn parse_view<'a, T: View>(r: ParseResult<'a, T>) -> SpecParse<T::V> {
    match r {
        Ok((rest, v)) => Ok((rest@, v@)),
        Err(e) => Err(e),
    }
}

/// The bytes of `s` that were read when `rest` is what is left of it.
pub open spec fn consumed(s: Seq<u8>, rest: Seq<u8>) -> Seq<u8> {
    s.take(s.len() - rest.len())
}

/// `rest` is what is left of `s` after reading a prefix of it.
pub open spec fn is_rest_of(rest: Seq<u8>, s: Seq<u8>) -> bool {
    &&& rest.len() <= s.len()
    &&& rest == s.skip(s.len() - rest.len())
}

/// Reads one byte and accepts it only when it is at most `limit`.
pub open spec fn spec_u8_with_limits(limit: u8, s: Seq<u8>) -> SpecParse<u8> {
    if s.len() != 0 && s[0] <= limit {
        Ok((s.skip(1), s[0]))
    } else {
        Err(ParserError::parser_value_out_of_range)
    }
}

/// Reads one byte, failing with `parser_value_out_of_range` when the input is
/// empty or the byte exceeds `limit`.
pub fn u8_with_limits<'a>(limit: u8, bytes: &'a [u8]) -> (r: ParseResult<'a, u8>)
    ensures
        parse_view(r) == spec_u8_with_limits(limit, bytes@),
{
    if bytes.len() != 0 && bytes[0] <= limit {
        match nom_le_u8(bytes) {
            Some((rest, v)) => Ok((rest, v)),
            None => Err(ParserError::parser_unexpected_buffer_end),
        }
    } else {
        Err(ParserError::parser_value_out_of_range)
    }
}

/// Stacks transaction versions.
///
/// On the wire `Mainnet` is the byte 0x00 and `Testnet` the byte 0x80; use
/// [`TransactionVersion::to_u8`] for that byte. A cast with `as u8` is not
/// the wire byte: it gives the variant's position (`Testnet as u8 == 1`).
#[derive(Debug, Clone, Copy, PartialEq, Eq, Structural)]
pub enum TransactionVersion {
    Mainnet,
    Testnet,
}

impl View for TransactionVersion {
    type V = TransactionVersion;

    open spec fn view(&self) -> TransactionVersion {
        *self
    }
}

impl TransactionVersion {
    /// The byte that stands for each version on the wire.
    pub open spec fn spec_to_u8(self) -> u8 {
        match self {
            TransactionVersion::Mainnet => 0x00,
            TransactionVersion::Testnet => 0x80,
        }
    }

    pub open spec fn spec_from_u8(v: u8) -> Option<TransactionVersion> {
        if v == 0x00 {
            Some(TransactionVersion::Mainnet)
        } else if v == 0x80 {
            Some(TransactionVersion::Testnet)
        } else {
            None
        }
    }

    /// One version byte, which must name a known version.
    pub open spec fn spec_from_bytes(s: Seq<u8>) -> SpecParse<TransactionVersion> {
        if s.len() == 0 {
            Err(ParserError::parser_unexpected_buffer_end)
        } else {
            match Self::spec_from_u8(s[0]) {
                Some(v) => Ok((s.skip(1), v)),
                None => Err(ParserError::parser_unexpected_error),
            }
        }
    }

    /// The byte that stands for this version on the wire.
    pub fn to_u8(self) -> (b: u8)
        ensures
            b == self.spec_to_u8(),
    {
        match self {
            TransactionVersion::Mainnet => 0x00,
            TransactionVersion::Testnet => 0x80,
        }
    }

    pub fn from_bytes<'a>(bytes: &'a [u8]) -> (r: ParseResult<'a, TransactionVersion>)
        ensures
            parse_view(r) == Self::spec_from_bytes(bytes@),
    {
        let (rest, b) = match nom_le_u8(bytes) {
            Some(x) => x,
            None => return Err(ParserError::parser_unexpected_buffer_end),
        };
        match Self::from_u8(b) {
            Some(v) => Ok((rest, v)),
            None => Err(ParserError::parser_unexpected_error),
        }
    }

    pub fn from_u8(v: u8) -> (r: Option<TransactionVersion>)
        ensures
            r == Self::spec_from_u8(v),
    {
        match v {
            0x00 => Some(TransactionVersion::Mainnet),
            0x80 => Some(TransactionVersion::Testnet),
            _ => None,
        }
    }
}

#[derive(Clone, PartialEq, Eq, Copy, Debug, Structural)]
pub enum AssetInfoId {
    STX,
    FungibleAsset,
    NonfungibleAsset,
}

impl AssetInfoId {
    /// The byte that stands for each kind of asset on the wire.
    pub open spec fn spec_to_u8(self) -> u8 {
        match self {
            AssetInfoId::STX => 0,
            AssetInfoId::FungibleAsset => 1,
            AssetInfoId::NonfungibleAsset => 2,
        }
    }

    pub open spec fn spec_from_u8(b: u8) -> Option<AssetInfoId> {
        if b == 0 {
            Some(AssetInfoId::STX)
        } else if b == 1 {
            Some(AssetInfoId::FungibleAsset)
        } else if b == 2 {
            Some(AssetInfoId::NonfungibleAsset)
        } else {
            None
        }
    }

    /// The byte that stands for this kind of asset on the wire.
    pub fn to_u8(self) -> (b: u8)
        ensures
            b == self.spec_to_u8(),
    {
        match self {
            AssetInfoId::STX => 0,
            AssetInfoId::FungibleAsset => 1,
            AssetInfoId::NonfungibleAsset => 2,
        }
    }

    pub fn from_u8(b: u8) -> (r: Option<AssetInfoId>)
        ensures
            r == Self::spec_from_u8(b),
    {
        match b {
            0 => Some(AssetInfoId::STX),
            1 => Some(AssetInfoId::FungibleAsset),
            2 => Some(AssetInfoId::NonfungibleAsset),
            _ => None,
        }
    }
}

/// Flag used to know whether the signer is valid, and who it is.
#[derive(Debug, Clone, PartialEq, Eq, Copy, Structural)]
pub enum SignerId {
    Origin,
    Sponsor,
    Invalid,
}

/// Address hash modes, tagged as single-signature or multi-signature so that
/// an invalid spending condition cannot be built by accident.
#[derive(Debug, Clone, Copy, PartialEq, Eq, Structural)]
pub enum HashMode {
    P2PKH,
    P2SH,
    P2WPKH,
    P2WSH,
}

impl HashMode {
    /// The byte that stands for each hash mode on the wire.
    pub open spec fn spec_to_u8(self) -> u8 {
        match self {
            HashMode::P2PKH => 0x00,
            HashMode::P2SH => 0x01,
            HashMode::P2WPKH => 0x02,
            HashMode::P2WSH => 0x03,
        }
    }

    pub open spec fn spec_from_u8(n: u8) -> Option<HashMode> {
        if n == 0x00 {
            Some(HashMode::P2PKH)
        } else if n == 0x01 {
            Some(HashMode::P2SH)
        } else if n == 0x02 {
            Some(HashMode::P2WPKH)
        } else if n == 0x03 {
            Some(HashMode::P2WSH)
        } else {
            None
        }
    }

    /// Single-signature accounts (P2PKH) get the single-signature version;
    /// every other mode is a multi-signature one.
    pub open spec fn spec_to_version_mainnet(self) -> u8 {
        if self == HashMode::P2PKH {
            c32::C32_ADDRESS_VERSION_MAINNET_SINGLESIG
        } else {
            c32::C32_ADDRESS_VERSION_MAINNET_MULTISIG
        }
    }

    pub open spec fn spec_to_version_testnet(self) -> u8 {
        if self == HashMode::P2PKH {
            c32::C32_ADDRESS_VERSION_TESTNET_SINGLESIG
        } else {
            c32::C32_ADDRESS_VERSION_TESTNET_MULTISIG
        }
    }

    /// The byte that stands for this hash mode on the wire.
    pub fn to_u8(self) -> (b: u8)
        ensures
            b == self.spec_to_u8(),
    {
        match self {
            HashMode::P2PKH => 0x00,
            HashMode::P2SH => 0x01,
            HashMode::P2WPKH => 0x02,
            HashMode::P2WSH => 0x03,
        }
    }

    pub fn from_u8(n: u8) -> (r: Option<HashMode>)
        ensures
            r == Self::spec_from_u8(n),
    {
        if n == HashMode::P2PKH.to_u8() {
            Some(HashMode::P2PKH)
        } else if n == HashMode::P2WPKH.to_u8() {
            Some(HashMode::P2WPKH)
        } else if n == HashMode::P2SH.to_u8() {
            Some(HashMode::P2SH)
        } else if n == HashMode::P2WSH.to_u8() {
            Some(HashMode::P2WSH)
        } else {
            None
        }
    }

    pub fn to_version_mainnet(self) -> (v: u8)
        ensures
            v == self.spec_to_version_mainnet(),
    {
        match self {
            HashMode::P2PKH => c32::C32_ADDRESS_VERSION_MAINNET_SINGLESIG,
            _ => c32::C32_ADDRESS_VERSION_MAINNET_MULTISIG,
        }
    }

    pub fn to_version_testnet(self) -> (v: u8)
        ensures
            v == self.spec_to_version_testnet(),
    {
        match self {
            HashMode::P2PKH => c32::C32_ADDRESS_VERSION_TESTNET_SINGLESIG,
            _ => c32::C32_ADDRESS_VERSION_TESTNET_MULTISIG,
        }
    }
}

/// A length-prefixed byte string: a big-endian `u32` length, then that many
/// bytes.
#[derive(Debug, Clone, Copy, PartialEq, Eq)]
pub struct StacksString<'a>(&'a [u8]);

impl<'a> View for StacksString<'a> {
    type V = Seq<u8>;

    closed spec fn view(&self) -> Seq<u8> {
        self.0@
    }
}

impl<'a> StacksString<'a> {
    /// A big-endian `u32` length `n` and `n` bytes. Outside expert mode `n`
    /// may be at most `MAX_STACKS_STRING_LEN`.
    pub open spec fn spec_from_bytes(s: Seq<u8>, expert_mode: bool) -> SpecParse<Seq<u8>> {
        if s.len() < 4 {
            Err(ParserError::parser_unexpected_buffer_end)
        } else {
            let n = be_u32_value(s);
            if n > MAX_STACKS_STRING_LEN && !expert_mode {
                Err(ParserError::parser_stacks_string_too_long)
            } else if s.len() < 4 + n {
                Err(ParserError::parser_unexpected_buffer_end)
            } else {
                Ok((s.skip(4 + n), s.subrange(4, 4 + n)))
            }
        }
    }

    /// Parses a string; `expert_mode` tells whether the device is in expert
    /// mode, where strings longer than `MAX_STACKS_STRING_LEN` are accepted.
    pub fn from_bytes(bytes: &'a [u8], expert_mode: bool) -> (r: ParseResult<'a, StacksString<'a>>)
        ensures
            parse_view(r) == Self::spec_from_bytes(bytes@, expert_mode),
    {
        let (rest, len) = match nom_be_u32(bytes) {
            Some(x) => x,
            None => return Err(ParserError::parser_unexpected_buffer_end),
        };
        let string_len = len as usize;
        if string_len > MAX_STACKS_STRING_LEN && !expert_mode {
            return Err(ParserError::parser_stacks_string_too_long);
        }
        match nom_take(string_len, rest) {
            Some((rest2, string)) => {
                assert(rest2@ =~= bytes@.skip(4 + string_len));
                assert(string@ =~= bytes@.subrange(4, 4 + string_len));
                Ok((rest2, StacksString(string)))
            },
            None => Err(ParserError::parser_unexpected_buffer_end),
        }
    }
}

/// The shared grammar of contract and clarity names: a length byte of at
/// most `MAX_STRING_LEN`, then that many bytes. A bad length byte (or none)
/// fails with `bad_length`.
pub open spec fn spec_name(s: Seq<u8>, bad_length: ParserError) -> SpecParse<Seq<u8>> {
    if s.len() == 0 || s[0] > MAX_STRING_LEN {
        Err(bad_length)
    } else if s.len() < 1 + s[0] {
        Err(ParserError::parser_unexpected_buffer_end)
    } else {
        Ok((s.skip(1 + s[0]), s.subrange(1, 1 + s[0])))
    }
}

/// A contract name, whose valid characters are
/// `^[a-zA-Z]([a-zA-Z0-9]|[-_])*$` (the characters are not checked).
#[derive(Debug, Clone, Copy, PartialEq, Eq)]
pub struct ContractName<'a>(pub &'a [u8]);

impl<'a> View for ContractName<'a> {
    type V = Seq<u8>;

    open spec fn view(&self) -> Seq<u8> {
        self.0@
    }
}

impl<'a> ContractName<'a> {
    pub open spec fn spec_from_bytes(s: Seq<u8>) -> SpecParse<Seq<u8>> {
        spec_name(s, ParserError::parser_invalid_contract_name)
    }

    pub fn from_bytes(bytes: &'a [u8]) -> (r: ParseResult<'a, ContractName<'a>>)
        ensures
            parse_view(r) == Self::spec_from_bytes(bytes@),
    {
        let (rest, name_len) = match u8_with_limits(MAX_STRING_LEN, bytes) {
            Ok(x) => x,
            Err(_) => return Err(ParserError::parser_invalid_contract_name),
        };
        match nom_take(name_len as usize, rest) {
            Some((rest2, name)) => {
                assert(rest2@ =~= bytes@.skip(1 + name_len));
                assert(name@ =~= bytes@.subrange(1, 1 + name_len));
                Ok((rest2, ContractName(name)))
            },
            None => Err(ParserError::parser_unexpected_buffer_end),
        }
    }
}

/// A clarity name, whose valid characters are
/// `^[a-zA-Z]([a-zA-Z0-9]|[-_!?+<>=/*])*$|^[-+=/*]$|^[<>]=?$` (the characters
/// are not checked).
#[derive(Debug, Clone, Copy, PartialEq, Eq)]
pub struct ClarityName<'a>(pub &'a [u8]);

impl<'a> View for ClarityName<'a> {
    type V = Seq<u8>;

    open spec fn view(&self) -> Seq<u8> {
        self.0@
    }
}

impl<'a> ClarityName<'a> {
    pub open spec fn spec_from_bytes(s: Seq<u8>) -> SpecParse<Seq<u8>> {
        spec_name(s, ParserError::parser_invalid_asset_name)
    }

    /// After a length byte `n` of at most `MAX_STRING_LEN`, the next `n + 1`
    /// bytes: the length byte itself is not among them, the byte that follows
    /// the name is.
    pub open spec fn spec_read_as_bytes(s: Seq<u8>) -> SpecParse<Seq<u8>> {
        if s.len() == 0 || s[0] > MAX_STRING_LEN {
            Err(ParserError::parser_invalid_asset_name)
        } else if s.len() < 2 + s[0] {
            Err(ParserError::parser_unexpected_buffer_end)
        } else {
            Ok((s.skip(2 + s[0]), s.subrange(1, 2 + s[0])))
        }
    }

    pub fn from_bytes(bytes: &'a [u8]) -> (r: ParseResult<'a, ClarityName<'a>>)
        ensures
            parse_view(r) == Self::spec_from_bytes(bytes@),
    {
        let (rest, name_len) = match u8_with_limits(MAX_STRING_LEN, bytes) {
            Ok(x) => x,
            Err(_) => return Err(ParserError::parser_invalid_asset_name),
        };
        match nom_take(name_len as usize, rest) {
            Some((rest2, name)) => {
                assert(rest2@ =~= bytes@.skip(1 + name_len));
                assert(name@ =~= bytes@.subrange(1, 1 + name_len));
                Ok((rest2, ClarityName(name)))
            },
            None => Err(ParserError::parser_unexpected_buffer_end),
        }
    }

    pub fn read_as_bytes(bytes: &'a [u8]) -> (r: ParseResult<'a, &'a [u8]>)
        ensures
            parse_view(r) == Self::spec_read_as_bytes(bytes@),
    {
        let (rest, name_len) = match u8_with_limits(MAX_STRING_LEN, bytes) {
            Ok(x) => x,
            Err(_) => return Err(ParserError::parser_invalid_asset_name),
        };
        let name_len = name_len as usize;
        match nom_take(name_len + 1, rest) {
            Some((raw, name_bytes)) => {
                assert(raw@ =~= bytes@.skip(2 + name_len));
                assert(name_bytes@ =~= bytes@.subrange(1, 2 + name_len));
                Ok((raw, name_bytes))
            },
            None => Err(ParserError::parser_unexpected_buffer_end),
        }
    }
}

/// Calls `<&[u8; STACKS_ADDR_LEN] as TryFrom<&[u8]>>::try_from`. std
/// documents that the conversion succeeds exactly when the slice holds
/// `STACKS_ADDR_LEN` elements, and then refers to the same elements.
#[verifier::external_body]
fn slice_to_address<'a>(s: &'a [u8]) -> (r: Option<&'a [u8; STACKS_ADDR_LEN]>)
    ensures
        r is Some <==> s@.len() == STACKS_ADDR_LEN,
        r matches Some(a) ==> a@ == s@,
{
    match <&'a [u8; STACKS_ADDR_LEN]>::try_from(s) {
        Ok(a) => Some(a),
        Err(_) => None,
    }
}

/// The first `STACKS_ADDR_LEN` bytes: a hash mode byte and a `HASH160_LEN`
/// byte hash.
pub open spec fn spec_address(s: Seq<u8>) -> SpecParse<Seq<u8>> {
    if s.len() < STACKS_ADDR_LEN {
        Err(ParserError::parser_unexpected_buffer_end)
    } else {
        Ok((s.skip(STACKS_ADDR_LEN as int), s.take(STACKS_ADDR_LEN as int)))
    }
}

/// A hash mode byte followed by a `HASH160_LEN` byte hash.
///
/// The c32 text encoding of an address is not part of this crate, so there
/// is no method that renders the address as text.
#[derive(Debug, Clone, Copy, PartialEq, Eq)]
pub struct StacksAddress<'a>(pub &'a [u8; STACKS_ADDR_LEN]);

impl<'a> View for StacksAddress<'a> {
    type V = Seq<u8>;

    open spec fn view(&self) -> Seq<u8> {
        self.0@
    }
}

impl<'a> StacksAddress<'a> {
    pub open spec fn spec_from_bytes(s: Seq<u8>) -> SpecParse<Seq<u8>> {
        spec_address(s)
    }

    pub fn from_bytes(bytes: &'a [u8]) -> (r: ParseResult<'a, StacksAddress<'a>>)
        ensures
            parse_view(r) == Self::spec_from_bytes(bytes@),
    {
        let (raw, taken) = match nom_take(STACKS_ADDR_LEN, bytes) {
            Some(x) => x,
            None => return Err(ParserError::parser_unexpected_buffer_end),
        };
        match slice_to_address(taken) {
            Some(address) => Ok((raw, StacksAddress(address))),
            None => Err(ParserError::parser_unexpected_buffer_end),
        }
    }
}

/// A standard principal: a version byte and a `HASH160_LEN` byte hash.
#[derive(Debug, Clone, Copy, PartialEq, Eq)]
pub struct StandardPrincipal<'a>(pub &'a [u8]);

impl<'a> View for StandardPrincipal<'a> {
    type V = Seq<u8>;

    open spec fn view(&self) -> Seq<u8> {
        self.0@
    }
}

impl<'a> StandardPrincipal<'a> {
    pub open spec fn spec_from_bytes(s: Seq<u8>) -> SpecParse<Seq<u8>> {
        spec_address(s)
    }

    pub fn from_bytes(bytes: &'a [u8]) -> (r: ParseResult<'a, StandardPrincipal<'a>>)
        ensures
            parse_view(r) == Self::spec_from_bytes(bytes@),
    {
        match nom_take(HASH160_LEN + 1, bytes) {
            Some((raw, address)) => Ok((raw, StandardPrincipal(address))),
            None => Err(ParserError::parser_unexpected_buffer_end),
        }
    }
}

/// A contract principal: a standard principal followed by a contract name.
#[derive(Debug, Clone, Copy, PartialEq, Eq)]
pub struct ContractPrincipal<'a>(StandardPrincipal<'a>, ContractName<'a>);

impl<'a> View for ContractPrincipal<'a> {
    type V = (Seq<u8>, Seq<u8>);

    closed spec fn view(&self) -> (Seq<u8>, Seq<u8>) {
        (self.0@, self.1@)
    }
}

impl<'a> ContractPrincipal<'a> {
    /// A standard principal, then a contract name.
    pub open spec fn spec_from_bytes(s: Seq<u8>) -> SpecParse<(Seq<u8>, Seq<u8>)> {
        match StandardPrincipal::spec_from_bytes(s) {
            Err(e) => Err(e),
            Ok((r1, address)) => match ContractName::spec_from_bytes(r1) {
                Err(e) => Err(e),
                Ok((r2, name)) => Ok((r2, (address, name))),
            },
        }
    }

    /// The bytes that `from_bytes` reads, with the same rest and the same
    /// errors.
    pub open spec fn spec_read_as_bytes(s: Seq<u8>) -> SpecParse<Seq<u8>> {
        match Self::spec_from_bytes(s) {
            Err(e) => Err(e),
            Ok((rest, _)) => Ok((rest, consumed(s, rest))),
        }
    }

    pub fn from_bytes(bytes: &'a [u8]) -> (r: ParseResult<'a, ContractPrincipal<'a>>)
        ensures
            parse_view(r) == Self::spec_from_bytes(bytes@),
    {
        let (raw, address) = match StandardPrincipal::from_bytes(bytes) {
            Ok(x) => x,
            Err(e) => return Err(e),
        };
        let (raw2, name) = match ContractName::from_bytes(raw) {
            Ok(x) => x,
            Err(e) => return Err(e),
        };
        Ok((raw2, ContractPrincipal(address, name)))
    }

    pub fn read_as_bytes(bytes: &'a [u8]) -> (r: ParseResult<'a, &'a [u8]>)
        ensures
            parse_view(r) == Self::spec_read_as_bytes(bytes@),
    {
        let (rem, _) = match Self::from_bytes(bytes) {
            Ok(x) => x,
            Err(e) => return Err(e),
        };
        proof {
            lemma_contract_principal_rest(bytes@);
        }
        let len = bytes.len() - rem.len();
        match nom_take(len, bytes) {
            Some((rem2, self_bytes)) => Ok((rem2, self_bytes)),
            None => Err(ParserError::parser_unexpected_buffer_end),
        }
    }
}

/// Information that identifies an asset: the address of the contract that
/// defines it, the contract's name and the asset's name.
#[derive(Debug, Clone, Copy, PartialEq, Eq)]
pub struct AssetInfo<'a> {
    pub address: StacksAddress<'a>,
    pub contract_name: ContractName<'a>,
    pub asset_name: ClarityName<'a>,
}

impl<'a> View for AssetInfo<'a> {
    type V = (Seq<u8>, Seq<u8>, Seq<u8>);

    open spec fn view(&self) -> (Seq<u8>, Seq<u8>, Seq<u8>) {
        (self.address@, self.contract_name@, self.asset_name@)
    }
}

impl<'a> AssetInfo<'a> {
    /// An address, a contract name and a clarity name, in this order.
    pub open spec fn spec_from_bytes(s: Seq<u8>) -> SpecParse<(Seq<u8>, Seq<u8>, Seq<u8>)> {
        match StacksAddress::spec_from_bytes(s) {
            Err(e) => Err(e),
            Ok((r1, address)) => match ContractName::spec_from_bytes(r1) {
                Err(e) => Err(e),
                Ok((r2, contract_name)) => match ClarityName::spec_from_bytes(r2) {
                    Err(e) => Err(e),
                    Ok((r3, asset_name)) => Ok((r3, (address, contract_name, asset_name))),
                },
            },
        }
    }

    /// The bytes that `from_bytes` reads, with the same rest and the same
    /// errors.
    pub open spec fn spec_read_as_bytes(s: Seq<u8>) -> SpecParse<Seq<u8>> {
        match Self::spec_from_bytes(s) {
            Err(e) => Err(e),
            Ok((rest, _)) => Ok((rest, consumed(s, rest))),
        }
    }

    pub fn from_bytes(bytes: &'a [u8]) -> (r: ParseResult<'a, AssetInfo<'a>>)
        ensures
            parse_view(r) == Self::spec_from_bytes(bytes@),
    {
        let (raw0, address) = match StacksAddress::from_bytes(bytes) {
            Ok(x) => x,
            Err(e) => return Err(e),
        };
        let (raw, contract_name) = match ContractName::from_bytes(raw0) {
            Ok(x) => x,
            Err(e) => return Err(e),
        };
        let (raw2, asset_name) = match ClarityName::from_bytes(raw) {
            Ok(x) => x,
            Err(e) => return Err(e),
        };
        Ok((raw2, AssetInfo { address, contract_name, asset_name }))
    }

    pub fn read_as_bytes(bytes: &'a [u8]) -> (r: ParseResult<'a, &'a [u8]>)
        ensures
            parse_view(r) == Self::spec_read_as_bytes(bytes@),
    {
        let (raw, _) = match StacksAddress::from_bytes(bytes) {
            Ok(x) => x,
            Err(e) => return Err(e),
        };
        let (raw1, _) = match ContractName::from_bytes(raw) {
            Ok(x) => x,
            Err(e) => return Err(e),
        };
        let (raw2, _) = match ClarityName::from_bytes(raw1) {
            Ok(x) => x,
            Err(e) => return Err(e),
        };
        proof {
            lemma_asset_info_rest(bytes@);
        }
        let len = bytes.len() - raw2.len();
        match nom_take(len, bytes) {
            Some((left, inner)) => Ok((left, inner)),
            None => Err(ParserError::parser_unexpected_buffer_end),
        }
    }

    pub fn asset_name(&self) -> (name: &[u8])
        ensures
            name@ == self.asset_name@,
    {
        self.asset_name.0
    }
}

/// A principal: a standard principal, with a contract name when it names a
/// contract.
///
/// The c32 text encoding of an address is not part of this crate, so there
/// is no method that renders the principal's address as text.
#[derive(Debug, PartialEq, Eq)]
pub struct PrincipalData<'a> {
    pub data: (StandardPrincipal<'a>, Option<ContractName<'a>>),
}

impl<'a> Clone for PrincipalData<'a> {
    fn clone(&self) -> (c: Self)
        ensures
            c == *self,
    {
        PrincipalData { data: (self.data.0, self.data.1) }
    }
}

impl<'a> View for PrincipalData<'a> {
    type V = (Seq<u8>, Option<Seq<u8>>);

    open spec fn view(&self) -> (Seq<u8>, Option<Seq<u8>>) {
        (
            self.data.0@,
            match self.data.1 {
                Some(name) => Some(name@),
                None => None,
            },
        )
    }
}

impl<'a> PrincipalData<'a> {
    pub open spec fn spec_standard_from_bytes(s: Seq<u8>) -> SpecParse<(Seq<u8>, Option<Seq<u8>>)> {
        match StandardPrincipal::spec_from_bytes(s) {
            Err(e) => Err(e),
            Ok((rest, address)) => Ok((rest, (address, None))),
        }
    }

    pub open spec fn spec_contract_principal_from_bytes(s: Seq<u8>) -> SpecParse<
        (Seq<u8>, Option<Seq<u8>>),
    > {
        match ContractPrincipal::spec_from_bytes(s) {
            Err(e) => Err(e),
            Ok((rest, (address, name))) => Ok((rest, (address, Some(name)))),
        }
    }

    pub fn standard_from_bytes(bytes: &'a [u8]) -> (r: ParseResult<'a, PrincipalData<'a>>)
        ensures
            parse_view(r) == Self::spec_standard_from_bytes(bytes@),
    {
        let (raw, principal) = match StandardPrincipal::from_bytes(bytes) {
            Ok(x) => x,
            Err(e) => return Err(e),
        };
        Ok((raw, PrincipalData { data: (principal, None) }))
    }

    pub fn contract_principal_from_bytes(bytes: &'a [u8]) -> (r: ParseResult<'a, PrincipalData<'a>>)
        ensures
            parse_view(r) == Self::spec_contract_principal_from_bytes(bytes@),
    {
        let (raw, address) = match StandardPrincipal::from_bytes(bytes) {
            Ok(x) => x,
            Err(e) => return Err(e),
        };
        let (raw2, name) = match ContractName::from_bytes(raw) {
            Ok(x) => x,
            Err(e) => return Err(e),
        };
        Ok((raw2, PrincipalData { data: (address, Some(name)) }))
    }

    /// The version byte: the first byte of the standard principal.
    pub fn version(&self) -> (v: u8)
        requires
            self.data.0@.len() >= 1,
        ensures
            v == self.data.0@[0],
    {
        (self.data.0).0[0]
    }

    /// The hash that follows the version byte.
    pub fn raw_address(&self) -> (a: &[u8])
        requires
            self.data.0@.len() >= 1,
        ensures
            a@ == self.data.0@.skip(1),
    {
        let p = (self.data.0).0;
        &p[1..p.len()]
    }
}

/// What the names leave unread is a rest of their input.
proof fn lemma_name_rest(s: Seq<u8>, bad_length: ParserError)
    ensures
        spec_name(s, bad_length) matches Ok((rest, _)) ==> is_rest_of(rest, s),
{
}

/// What an address leaves unread is a rest of its input.
proof fn lemma_address_rest(s: Seq<u8>)
    ensures
        spec_address(s) matches Ok((rest, _)) ==> is_rest_of(rest, s),
{
}

/// A rest of a rest of `s` is a rest of `s`.
proof fn lemma_rest_of_rest(r2: Seq<u8>, r1: Seq<u8>, s: Seq<u8>)
    requires
        is_rest_of(r2, r1),
        is_rest_of(r1, s),
    ensures
        is_rest_of(r2, s),
{
    assert(r2 =~= s.skip(s.len() - r2.len()));
}

proof fn lemma_contract_principal_rest(s: Seq<u8>)
    ensures
        ContractPrincipal::spec_from_bytes(s) matches Ok((rest, _)) ==> is_rest_of(rest, s),
{
    lemma_address_rest(s);
    if let Ok((r1, _)) = spec_address(s) {
        lemma_name_rest(r1, ParserError::parser_invalid_contract_name);
        if let Ok((r2, _)) = ContractName::spec_from_bytes(r1) {
            lemma_rest_of_rest(r2, r1, s);
        }
    }
}

proof fn lemma_asset_info_rest(s: Seq<u8>)
    ensures
        AssetInfo::spec_from_bytes(s) matches Ok((rest, _)) ==> is_rest_of(rest, s),
{
    lemma_address_rest(s);
    if let Ok((r1, _)) = spec_address(s) {
        lemma_name_rest(r1, ParserError::parser_invalid_contract_name);
        if let Ok((r2, _)) = ContractName::spec_from_bytes(r1) {
            lemma_rest_of_rest(r2, r1, s);
            lemma_name_rest(r2, ParserError::parser_invalid_asset_name);
            if let Ok((r3, _)) = ClarityName::spec_from_bytes(r2) {
                lemma_rest_of_rest(r3, r2, s);
            }
        }
    }
}

} // verus!
