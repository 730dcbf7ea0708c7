//! What the parsers promise of the byte format as a whole: each parsed value
//! re-encodes to exactly the bytes that were read, each well-formed value is
//! read back from its encoding, and appending bytes to an input that parses
//! only appends them to what is left unread.
use vstd::prelude::*;

use crate::c32;
use crate::error::ParserError;
use crate::nom_calls::be_u32_value;
use crate::parser_common::{
    consumed, spec_address, spec_name, AssetInfo, ClarityName, ContractName, ContractPrincipal,
    PrincipalData, StacksString, TransactionVersion, AssetInfoId, HashMode, MAX_STACKS_STRING_LEN, MAX_STRING_LEN,
    STACKS_ADDR_LEN, StacksAddress, StandardPrincipal, spec_u8_with_limits,
};

verus! {

/// The encoding of a contract or clarity name: its length byte, then its
/// bytes.
pub open spec fn encode_name(n: Seq<u8>) -> Seq<u8> {
    seq![n.len() as u8] + n
}

/// A name that its length byte can describe.
pub open spec fn name_fits(n: Seq<u8>) -> bool {
    n.len() <= MAX_STRING_LEN
}

/// The encoding of asset information: the address, then the two names.
pub open spec fn encode_asset_info(v: (Seq<u8>, Seq<u8>, Seq<u8>)) -> Seq<u8> {
    v.0 + encode_name(v.1) + encode_name(v.2)
}

/// Asset information whose parts have the lengths that the format allows.
pub open spec fn asset_info_fits(v: (Seq<u8>, Seq<u8>, Seq<u8>)) -> bool {
    &&& v.0.len() == STACKS_ADDR_LEN
    &&& name_fits(v.1)
    &&& name_fits(v.2)
}

/// The encoding of a contract principal: the address, then the name.
pub open spec fn encode_contract_principal(v: (Seq<u8>, Seq<u8>)) -> Seq<u8> {
    v.0 + encode_name(v.1)
}

/// A contract principal whose parts have the lengths that the format allows.
pub open spec fn contract_principal_fits(v: (Seq<u8>, Seq<u8>)) -> bool {
    v.0.len() == STACKS_ADDR_LEN && name_fits(v.1)
}

proof fn lemma_name_parse_encode(s: Seq<u8>, bad_length: ParserError)
    ensures
        spec_name(s, bad_length) matches Ok((rest, n)) ==> name_fits(n) && s == encode_name(n)
            + rest,
{
    if let Ok((rest, n)) = spec_name(s, bad_length) {
        assert(s =~= encode_name(n) + rest);
    }
}

proof fn lemma_name_encode_parse(n: Seq<u8>, t: Seq<u8>, bad_length: ParserError)
    requires
        name_fits(n),
    ensures
        spec_name(encode_name(n) + t, bad_length) == Ok::<(Seq<u8>, Seq<u8>), ParserError>((t, n)),
{
    let e = encode_name(n) + t;
    assert(e[0] == n.len());
    assert(e.skip(1 + n.len() as int) =~= t);
    assert(e.subrange(1, 1 + n.len() as int) =~= n);
}

proof fn lemma_address_parse_encode(s: Seq<u8>)
    ensures
        spec_address(s) matches Ok((rest, a)) ==> a.len() == STACKS_ADDR_LEN && s == a + rest,
{
    if let Ok((rest, a)) = spec_address(s) {
        assert(s =~= a + rest);
    }
}

proof fn lemma_address_encode_parse(a: Seq<u8>, t: Seq<u8>)
    requires
        a.len() == STACKS_ADDR_LEN,
    ensures
        spec_address(a + t) == Ok::<(Seq<u8>, Seq<u8>), ParserError>((t, a)),
{
    assert((a + t).skip(STACKS_ADDR_LEN as int) =~= t);
    assert((a + t).take(STACKS_ADDR_LEN as int) =~= a);
}

/// Names: a parsed name fits its length byte, and its length byte and bytes
/// are exactly what was read.
pub proof fn law_name_parse_encode(s: Seq<u8>)
    ensures
        ContractName::spec_from_bytes(s) matches Ok((rest, n)) ==> name_fits(n) && s
            == encode_name(n) + rest,
        ClarityName::spec_from_bytes(s) matches Ok((rest, n)) ==> name_fits(n) && s
            == encode_name(n) + rest,
{
    lemma_name_parse_encode(s, ParserError::parser_invalid_contract_name);
    lemma_name_parse_encode(s, ParserError::parser_invalid_asset_name);
}

/// Names: a name that fits its length byte is read back from its encoding,
/// whatever follows it.
pub proof fn law_name_encode_parse(n: Seq<u8>, t: Seq<u8>)
    requires
        name_fits(n),
    ensures
        ContractName::spec_from_bytes(encode_name(n) + t) == Ok::<(Seq<u8>, Seq<u8>), ParserError>(
            (t, n),
        ),
        ClarityName::spec_from_bytes(encode_name(n) + t) == Ok::<(Seq<u8>, Seq<u8>), ParserError>(
            (t, n),
        ),
{
    lemma_name_encode_parse(n, t, ParserError::parser_invalid_contract_name);
    lemma_name_encode_parse(n, t, ParserError::parser_invalid_asset_name);
}

/// Asset information: the parsed parts have the lengths that the format
/// allows, and their encoding is exactly what was read.
pub proof fn law_asset_info_parse_encode(s: Seq<u8>)
    ensures
        AssetInfo::spec_from_bytes(s) matches Ok((rest, v)) ==> asset_info_fits(v) && s
            == encode_asset_info(v) + rest,
{
    lemma_address_parse_encode(s);
    if let Ok((r1, a)) = spec_address(s) {
        lemma_name_parse_encode(r1, ParserError::parser_invalid_contract_name);
        if let Ok((r2, c)) = ContractName::spec_from_bytes(r1) {
            lemma_name_parse_encode(r2, ParserError::parser_invalid_asset_name);
            if let Ok((r3, n)) = ClarityName::spec_from_bytes(r2) {
                assert(s =~= encode_asset_info((a, c, n)) + r3);
            }
        }
    }
}

/// Asset information: a value whose parts have the allowed lengths is read
/// back from its encoding, whatever follows it.
pub proof fn law_asset_info_encode_parse(v: (Seq<u8>, Seq<u8>, Seq<u8>), t: Seq<u8>)
    requires
        asset_info_fits(v),
    ensures
        AssetInfo::spec_from_bytes(encode_asset_info(v) + t) == Ok::<
            (Seq<u8>, (Seq<u8>, Seq<u8>, Seq<u8>)),
            ParserError,
        >((t, v)),
{
    let t2 = encode_name(v.2) + t;
    let t1 = encode_name(v.1) + t2;
    assert(encode_asset_info(v) + t =~= v.0 + t1);
    lemma_address_encode_parse(v.0, t1);
    lemma_name_encode_parse(v.1, t2, ParserError::parser_invalid_contract_name);
    lemma_name_encode_parse(v.2, t, ParserError::parser_invalid_asset_name);
}

/// Asset information: bytes appended to an input that parses are only
/// appended to what is left unread; the value is the same.
pub proof fn law_asset_info_extends(s: Seq<u8>, t: Seq<u8>)
    ensures
        AssetInfo::spec_from_bytes(s) matches Ok((rest, v)) ==> AssetInfo::spec_from_bytes(s + t)
            == Ok::<(Seq<u8>, (Seq<u8>, Seq<u8>, Seq<u8>)), ParserError>((rest + t, v)),
{
    law_asset_info_parse_encode(s);
    if let Ok((rest, v)) = AssetInfo::spec_from_bytes(s) {
        assert(s + t =~= encode_asset_info(v) + (rest + t));
        law_asset_info_encode_parse(v, rest + t);
    }
}

/// Asset information: `read_as_bytes` fails exactly when `from_bytes` does,
/// with the same error; otherwise it leaves the same rest and returns the
/// encoding of the value that `from_bytes` parses, which together with the
/// rest is the whole input.
pub proof fn law_asset_info_read_as_bytes(s: Seq<u8>)
    ensures
        AssetInfo::spec_from_bytes(s) matches Err(e) ==> AssetInfo::spec_read_as_bytes(s) == Err::<
            (Seq<u8>, Seq<u8>),
            ParserError,
        >(e),
        AssetInfo::spec_from_bytes(s) matches Ok((rest, v)) ==> AssetInfo::spec_read_as_bytes(s)
            == Ok::<(Seq<u8>, Seq<u8>), ParserError>((rest, encode_asset_info(v))),
        AssetInfo::spec_read_as_bytes(s) matches Ok((rest, inner)) ==> inner + rest == s,
{
    law_asset_info_parse_encode(s);
    if let Ok((rest, v)) = AssetInfo::spec_from_bytes(s) {
        assert(consumed(s, rest) =~= encode_asset_info(v));
        assert(encode_asset_info(v) + rest == s);
    }
}

/// Contract principals: the parsed parts have the lengths that the format
/// allows, and their encoding is exactly what was read.
pub proof fn law_contract_principal_parse_encode(s: Seq<u8>)
    ensures
        ContractPrincipal::spec_from_bytes(s) matches Ok((rest, v)) ==> contract_principal_fits(v)
            && s == encode_contract_principal(v) + rest,
{
    lemma_address_parse_encode(s);
    if let Ok((r1, a)) = spec_address(s) {
        lemma_name_parse_encode(r1, ParserError::parser_invalid_contract_name);
        if let Ok((r2, c)) = ContractName::spec_from_bytes(r1) {
            assert(s =~= encode_contract_principal((a, c)) + r2);
        }
    }
}

/// Contract principals: a value whose parts have the allowed lengths is read
/// back from its encoding, whatever follows it.
pub proof fn law_contract_principal_encode_parse(v: (Seq<u8>, Seq<u8>), t: Seq<u8>)
    requires
        contract_principal_fits(v),
    ensures
        ContractPrincipal::spec_from_bytes(encode_contract_principal(v) + t) == Ok::<
            (Seq<u8>, (Seq<u8>, Seq<u8>)),
            ParserError,
        >((t, v)),
{
    let t1 = encode_name(v.1) + t;
    assert(encode_contract_principal(v) + t =~= v.0 + t1);
    lemma_address_encode_parse(v.0, t1);
    lemma_name_encode_parse(v.1, t, ParserError::parser_invalid_contract_name);
}

/// Contract principals: bytes appended to an input that parses are only
/// appended to what is left unread; the value is the same.
pub proof fn law_contract_principal_extends(s: Seq<u8>, t: Seq<u8>)
    ensures
        ContractPrincipal::spec_from_bytes(s) matches Ok((rest, v))
            ==> ContractPrincipal::spec_from_bytes(s + t) == Ok::<
            (Seq<u8>, (Seq<u8>, Seq<u8>)),
            ParserError,
        >((rest + t, v)),
{
    law_contract_principal_parse_encode(s);
    if let Ok((rest, v)) = ContractPrincipal::spec_from_bytes(s) {
        assert(s + t =~= encode_contract_principal(v) + (rest + t));
        law_contract_principal_encode_parse(v, rest + t);
    }
}

/// Contract principals: `read_as_bytes` fails exactly when `from_bytes`
/// does, with the same error; otherwise it leaves the same rest and returns
/// the encoding of the value that `from_bytes` parses, which together with
/// the rest is the whole input.
pub proof fn law_contract_principal_read_as_bytes(s: Seq<u8>)
    ensures
        ContractPrincipal::spec_from_bytes(s) matches Err(e)
            ==> ContractPrincipal::spec_read_as_bytes(s) == Err::<(Seq<u8>, Seq<u8>), ParserError>(
            e,
        ),
        ContractPrincipal::spec_from_bytes(s) matches Ok((rest, v))
            ==> ContractPrincipal::spec_read_as_bytes(s) == Ok::<(Seq<u8>, Seq<u8>), ParserError>(
            (rest, encode_contract_principal(v)),
        ),
        ContractPrincipal::spec_read_as_bytes(s) matches Ok((rest, inner)) ==> inner + rest == s,
{
    law_contract_principal_parse_encode(s);
    if let Ok((rest, v)) = ContractPrincipal::spec_from_bytes(s) {
        assert(consumed(s, rest) =~= encode_contract_principal(v));
        assert(encode_contract_principal(v) + rest == s);
    }
}

/// Principals: the contract form reads the standard form and then a contract
/// name; appending bytes to an input that parses (in either form) only
/// appends them to what is left unread.
pub proof fn law_principal_data_extends(s: Seq<u8>, t: Seq<u8>)
    ensures
        PrincipalData::spec_standard_from_bytes(s) matches Ok((rest, v))
            ==> PrincipalData::spec_standard_from_bytes(s + t) == Ok::<
            (Seq<u8>, (Seq<u8>, Option<Seq<u8>>)),
            ParserError,
        >((rest + t, v)),
        PrincipalData::spec_contract_principal_from_bytes(s) matches Ok((rest, v))
            ==> PrincipalData::spec_contract_principal_from_bytes(s + t) == Ok::<
            (Seq<u8>, (Seq<u8>, Option<Seq<u8>>)),
            ParserError,
        >((rest + t, v)),
        PrincipalData::spec_contract_principal_from_bytes(s) matches Ok((rest, (a, name)))
            ==> PrincipalData::spec_standard_from_bytes(s) matches Ok((r1, (a1, None)))
            && a1 == a && ContractName::spec_from_bytes(r1) == Ok::<
            (Seq<u8>, Seq<u8>),
            ParserError,
        >((rest, name.unwrap())),
{
    lemma_address_parse_encode(s);
    if let Ok((rest, a)) = spec_address(s) {
        assert(s + t =~= a + (rest + t));
        lemma_address_encode_parse(a, rest + t);
    }
    law_contract_principal_extends(s, t);
}

/// Strings: outside expert mode a string holds at most
/// `MAX_STACKS_STRING_LEN` bytes; the four length bytes give its length, and
/// the length, the string and the rest are the whole input.
pub proof fn law_stacks_string_parse(s: Seq<u8>, expert_mode: bool)
    ensures
        StacksString::spec_from_bytes(s, expert_mode) matches Ok((rest, v)) ==> {
            &&& !expert_mode ==> v.len() <= MAX_STACKS_STRING_LEN
            &&& be_u32_value(s) == v.len()
            &&& s == s.take(4) + v + rest
        },
{
    if let Ok((rest, v)) = StacksString::spec_from_bytes(s, expert_mode) {
        assert(s =~= s.take(4) + v + rest);
    }
}

/// Strings: bytes appended to an input that parses are only appended to what
/// is left unread; the string is the same.
pub proof fn law_stacks_string_extends(s: Seq<u8>, t: Seq<u8>, expert_mode: bool)
    ensures
        StacksString::spec_from_bytes(s, expert_mode) matches Ok((rest, v))
            ==> StacksString::spec_from_bytes(s + t, expert_mode) == Ok::<
            (Seq<u8>, Seq<u8>),
            ParserError,
        >((rest + t, v)),
{
    if let Ok((rest, v)) = StacksString::spec_from_bytes(s, expert_mode) {
        let st = s + t;
        assert(st[0] == s[0] && st[1] == s[1] && st[2] == s[2] && st[3] == s[3]);
        let n = be_u32_value(s);
        assert(st.skip(4 + n) =~= rest + t);
        assert(st.subrange(4, 4 + n) =~= v);
    }
}

/// Transaction versions: the version byte is what was read, and bytes
/// appended to an input that parses are only appended to what is left.
pub proof fn law_transaction_version_parse(s: Seq<u8>, t: Seq<u8>)
    ensures
        TransactionVersion::spec_from_bytes(s) matches Ok((rest, v)) ==> s == seq![v.spec_to_u8()]
            + rest && TransactionVersion::spec_from_bytes(s + t) == Ok::<
            (Seq<u8>, TransactionVersion),
            ParserError,
        >((rest + t, v)),
{
    if let Ok((rest, v)) = TransactionVersion::spec_from_bytes(s) {
        assert(s =~= seq![v.spec_to_u8()] + rest);
        assert((s + t).skip(1) =~= rest + t);
    }
}

/// `ClarityName::read_as_bytes` does not read what `from_bytes` reads: when
/// it succeeds it leaves the length byte out, returns the name followed by
/// the byte after it, and so reads one byte more.
pub proof fn law_clarity_name_read_as_bytes(s: Seq<u8>)
    ensures
        ClarityName::spec_read_as_bytes(s) matches Ok((rest, b)) ==> ClarityName::spec_from_bytes(
            s,
        ) matches Ok((r1, n)) && r1.len() >= 1 && b == n.push(r1[0]) && rest == r1.skip(1),
        ClarityName::spec_from_bytes(s) matches Err(e) ==> ClarityName::spec_read_as_bytes(s)
            == Err::<(Seq<u8>, Seq<u8>), ParserError>(e),
{
    if let Ok((rest, b)) = ClarityName::spec_read_as_bytes(s) {
        let k = s[0] as int;
        assert(b =~= s.subrange(1, 1 + k).push(s.skip(1 + k)[0]));
        assert(rest =~= s.skip(1 + k).skip(1));
    }
}

/// Transaction versions: `from_u8` reads back the byte of every version, and
/// accepts no other byte.
pub proof fn law_transaction_version_byte(v: TransactionVersion, b: u8)
    ensures
        TransactionVersion::spec_from_u8(v.spec_to_u8()) == Some(v),
        TransactionVersion::spec_from_u8(b) matches Some(w) ==> w.spec_to_u8() == b,
{
}

/// Asset kinds: `from_u8` reads back the byte of every kind, and accepts no
/// other byte.
pub proof fn law_asset_info_id_byte(v: AssetInfoId, b: u8)
    ensures
        AssetInfoId::spec_from_u8(v.spec_to_u8()) == Some(v),
        AssetInfoId::spec_from_u8(b) matches Some(w) ==> w.spec_to_u8() == b,
{
}

/// Hash modes: `from_u8` reads back the byte of every mode, and accepts no
/// other byte.
pub proof fn law_hash_mode_byte(m: HashMode, b: u8)
    ensures
        HashMode::spec_from_u8(m.spec_to_u8()) == Some(m),
        HashMode::spec_from_u8(b) matches Some(w) ==> w.spec_to_u8() == b,
{
}

/// Hash modes: a mainnet address version never equals a testnet one, and the
/// single-signature versions belong to P2PKH alone.
pub proof fn law_hash_mode_versions(m: HashMode, n: HashMode)
    ensures
        m.spec_to_version_mainnet() != n.spec_to_version_testnet(),
        m.spec_to_version_mainnet() == c32::C32_ADDRESS_VERSION_MAINNET_SINGLESIG <==> m
            == HashMode::P2PKH,
        m.spec_to_version_testnet() == c32::C32_ADDRESS_VERSION_TESTNET_SINGLESIG <==> m
            == HashMode::P2PKH,
        m.spec_to_version_mainnet() == n.spec_to_version_mainnet() <==> (m == HashMode::P2PKH)
            == (n == HashMode::P2PKH),
{
}

/// Strings: expert mode only lifts the length limit. Whatever normal mode
/// accepts, expert mode accepts with the same result; a string whose four
/// length bytes give `n` and which has `n` bytes after them is accepted in
/// expert mode, and also in normal mode when `n <= MAX_STACKS_STRING_LEN`.
/// Fewer than four bytes, or fewer than `n` after them, is the end of the
/// input; a longer string outside expert mode is too long.
pub proof fn law_stacks_string_expert_mode(s: Seq<u8>, expert_mode: bool)
    ensures
        StacksString::spec_from_bytes(s, false) matches Ok(x) ==> StacksString::spec_from_bytes(
            s,
            true,
        ) == Ok::<(Seq<u8>, Seq<u8>), ParserError>(x),
        s.len() >= 4 && s.len() >= 4 + be_u32_value(s) && (expert_mode || be_u32_value(s)
            <= MAX_STACKS_STRING_LEN) ==> StacksString::spec_from_bytes(s, expert_mode) == Ok::<
            (Seq<u8>, Seq<u8>),
            ParserError,
        >((s.skip(4 + be_u32_value(s)), s.subrange(4, 4 + be_u32_value(s)))),
        s.len() < 4 ==> StacksString::spec_from_bytes(s, expert_mode) == Err::<
            (Seq<u8>, Seq<u8>),
            ParserError,
        >(ParserError::parser_unexpected_buffer_end),
        s.len() >= 4 && !expert_mode && be_u32_value(s) > MAX_STACKS_STRING_LEN
            ==> StacksString::spec_from_bytes(s, expert_mode) == Err::<
            (Seq<u8>, Seq<u8>),
            ParserError,
        >(ParserError::parser_stacks_string_too_long),
        s.len() >= 4 && s.len() < 4 + be_u32_value(s) && (expert_mode || be_u32_value(s)
            <= MAX_STACKS_STRING_LEN) ==> StacksString::spec_from_bytes(s, expert_mode) == Err::<
            (Seq<u8>, Seq<u8>),
            ParserError,
        >(ParserError::parser_unexpected_buffer_end),
{
}

/// Addresses and standard principals: any `STACKS_ADDR_LEN` bytes are read
/// back as the address, whatever follows them (nothing included), and a
/// shorter input is the end of the input. A principal read in its standard
/// form is that address with no contract name.
pub proof fn law_address_encode_parse(a: Seq<u8>, t: Seq<u8>)
    requires
        a.len() == STACKS_ADDR_LEN,
    ensures
        StacksAddress::spec_from_bytes(a + t) == Ok::<(Seq<u8>, Seq<u8>), ParserError>((t, a)),
        StandardPrincipal::spec_from_bytes(a + t) == Ok::<(Seq<u8>, Seq<u8>), ParserError>((t, a)),
        PrincipalData::spec_standard_from_bytes(a + t) == Ok::<
            (Seq<u8>, (Seq<u8>, Option<Seq<u8>>)),
            ParserError,
        >((t, (a, None))),
{
    lemma_address_encode_parse(a, t);
}

/// Addresses, standard principals and principals in standard form fail on
/// inputs shorter than `STACKS_ADDR_LEN` bytes, at the end of the input.
pub proof fn law_address_short_input(s: Seq<u8>)
    requires
        s.len() < STACKS_ADDR_LEN,
    ensures
        StacksAddress::spec_from_bytes(s) == Err::<(Seq<u8>, Seq<u8>), ParserError>(
            ParserError::parser_unexpected_buffer_end,
        ),
        StandardPrincipal::spec_from_bytes(s) == Err::<(Seq<u8>, Seq<u8>), ParserError>(
            ParserError::parser_unexpected_buffer_end,
        ),
        PrincipalData::spec_standard_from_bytes(s) == Err::<
            (Seq<u8>, (Seq<u8>, Option<Seq<u8>>)),
            ParserError,
        >(ParserError::parser_unexpected_buffer_end),
{
}

/// Principals in contract form: an address followed by the encoding of a
/// name of at most `MAX_STRING_LEN` bytes is read back as that address and
/// that name, whatever follows; and the contract form succeeds exactly when
/// a contract principal parses, with the same parts and rest.
pub proof fn law_principal_data_contract_encode_parse(v: (Seq<u8>, Seq<u8>), t: Seq<u8>, s: Seq<u8>)
    ensures
        contract_principal_fits(v) ==> PrincipalData::spec_contract_principal_from_bytes(
            encode_contract_principal(v) + t,
        ) == Ok::<(Seq<u8>, (Seq<u8>, Option<Seq<u8>>)), ParserError>((t, (v.0, Some(v.1)))),
        ContractPrincipal::spec_from_bytes(s) matches Ok((rest, (a, n)))
            ==> PrincipalData::spec_contract_principal_from_bytes(s) == Ok::<
            (Seq<u8>, (Seq<u8>, Option<Seq<u8>>)),
            ParserError,
        >((rest, (a, Some(n)))),
        ContractPrincipal::spec_from_bytes(s) matches Err(e)
            ==> PrincipalData::spec_contract_principal_from_bytes(s) == Err::<
            (Seq<u8>, (Seq<u8>, Option<Seq<u8>>)),
            ParserError,
        >(e),
{
    if contract_principal_fits(v) {
        law_contract_principal_encode_parse(v, t);
    }
}

/// `ClarityName::read_as_bytes` against `from_bytes`: whenever `from_bytes`
/// succeeds and leaves at least one byte, `read_as_bytes` succeeds with the
/// name followed by that byte and leaves the rest after it; when
/// `from_bytes` leaves nothing, `read_as_bytes` hits the end of the input;
/// when `from_bytes` fails, `read_as_bytes` fails with the same error.
pub proof fn law_clarity_name_read_as_bytes_succeeds(s: Seq<u8>)
    ensures
        ClarityName::spec_from_bytes(s) matches Ok((r1, n)) ==> (if r1.len() >= 1 {
            ClarityName::spec_read_as_bytes(s) == Ok::<(Seq<u8>, Seq<u8>), ParserError>(
                (r1.skip(1), n.push(r1[0])),
            )
        } else {
            ClarityName::spec_read_as_bytes(s) == Err::<(Seq<u8>, Seq<u8>), ParserError>(
                ParserError::parser_unexpected_buffer_end,
            )
        }),
        ClarityName::spec_from_bytes(s) matches Err(e) ==> ClarityName::spec_read_as_bytes(s)
            == Err::<(Seq<u8>, Seq<u8>), ParserError>(e),
{
    if let Ok((r1, n)) = ClarityName::spec_from_bytes(s) {
        let k = s[0] as int;
        if r1.len() >= 1 {
            assert(s.subrange(1, 2 + k) =~= n.push(r1[0]));
            assert(s.skip(2 + k) =~= r1.skip(1));
        }
    }
}

/// Names: a name of at most `MAX_STRING_LEN` bytes followed by at least one
/// byte is read by `ClarityName::read_as_bytes` as the name and that byte.
pub proof fn law_clarity_name_read_as_bytes_encode(n: Seq<u8>, b: u8, t: Seq<u8>)
    requires
        name_fits(n),
    ensures
        ClarityName::spec_read_as_bytes(encode_name(n) + seq![b] + t) == Ok::<
            (Seq<u8>, Seq<u8>),
            ParserError,
        >((t, n.push(b))),
{
    lemma_name_encode_parse(n, seq![b] + t, ParserError::parser_invalid_asset_name);
    assert(encode_name(n) + seq![b] + t =~= encode_name(n) + (seq![b] + t));
    law_clarity_name_read_as_bytes_succeeds(encode_name(n) + seq![b] + t);
    assert((seq![b] + t).skip(1) =~= t);
}

/// Names fail on a missing length byte or one above `MAX_STRING_LEN`, each
/// kind with its own error, and on too few bytes after a valid length byte,
/// at the end of the input.
pub proof fn law_name_errors(s: Seq<u8>)
    ensures
        s.len() == 0 || s[0] > MAX_STRING_LEN ==> ContractName::spec_from_bytes(s) == Err::<
            (Seq<u8>, Seq<u8>),
            ParserError,
        >(ParserError::parser_invalid_contract_name) && ClarityName::spec_from_bytes(s) == Err::<
            (Seq<u8>, Seq<u8>),
            ParserError,
        >(ParserError::parser_invalid_asset_name),
        s.len() >= 1 && s[0] <= MAX_STRING_LEN && s.len() < 1 + s[0]
            ==> ContractName::spec_from_bytes(s) == Err::<(Seq<u8>, Seq<u8>), ParserError>(
            ParserError::parser_unexpected_buffer_end,
        ) && ClarityName::spec_from_bytes(s) == Err::<(Seq<u8>, Seq<u8>), ParserError>(
            ParserError::parser_unexpected_buffer_end,
        ),
{
}

/// Bounded bytes: a byte is accepted exactly when there is one and it is at
/// most the limit, and a byte accepted under a limit is accepted with the
/// same result under every larger limit.
pub proof fn law_u8_with_limits(limit: u8, larger: u8, s: Seq<u8>)
    ensures
        spec_u8_with_limits(limit, s) is Ok <==> s.len() >= 1 && s[0] <= limit,
        spec_u8_with_limits(limit, s) matches Ok((rest, v)) ==> v == s[0] && s == seq![v] + rest,
        spec_u8_with_limits(limit, s) is Err ==> spec_u8_with_limits(limit, s) == Err::<
            (Seq<u8>, u8),
            ParserError,
        >(ParserError::parser_value_out_of_range),
        limit <= larger && spec_u8_with_limits(limit, s) is Ok ==> spec_u8_with_limits(larger, s)
            == spec_u8_with_limits(limit, s),
{
    if let Ok((rest, v)) = spec_u8_with_limits(limit, s) {
        assert(s =~= seq![v] + rest);
    }
}

/// Transaction versions on the wire: Mainnet is the byte 0x00 and Testnet
/// the byte 0x80, no other byte names a version, and a version byte followed
/// by anything reads as that version; an empty input is the end of the input
/// and any other byte an unexpected error.
pub proof fn law_transaction_version_wire(v: TransactionVersion, b: u8, t: Seq<u8>)
    ensures
        TransactionVersion::Mainnet.spec_to_u8() == 0x00,
        TransactionVersion::Testnet.spec_to_u8() == 0x80,
        TransactionVersion::spec_from_u8(b) is Some <==> b == 0x00 || b == 0x80,
        TransactionVersion::spec_from_bytes(seq![v.spec_to_u8()] + t) == Ok::<
            (Seq<u8>, TransactionVersion),
            ParserError,
        >((t, v)),
        TransactionVersion::spec_from_u8(b) is None ==> TransactionVersion::spec_from_bytes(
            seq![b] + t,
        ) == Err::<(Seq<u8>, TransactionVersion), ParserError>(
            ParserError::parser_unexpected_error,
        ),
        TransactionVersion::spec_from_bytes(Seq::<u8>::empty()) == Err::<
            (Seq<u8>, TransactionVersion),
            ParserError,
        >(ParserError::parser_unexpected_buffer_end),
{
    assert((seq![v.spec_to_u8()] + t).skip(1) =~= t);
    assert((seq![b] + t)[0] == b);
}

/// Asset kinds on the wire: STX, fungible and non-fungible assets are the
/// bytes 0, 1 and 2, and no other byte names a kind.
pub proof fn law_asset_info_id_wire(b: u8)
    ensures
        AssetInfoId::STX.spec_to_u8() == 0,
        AssetInfoId::FungibleAsset.spec_to_u8() == 1,
        AssetInfoId::NonfungibleAsset.spec_to_u8() == 2,
        AssetInfoId::spec_from_u8(b) is Some <==> b <= 2,
{
}

/// Hash modes on the wire: P2PKH, P2SH, P2WPKH and P2WSH are the bytes 0 to
/// 3 in this order, and no other byte names a mode.
pub proof fn law_hash_mode_wire(b: u8)
    ensures
        HashMode::P2PKH.spec_to_u8() == 0,
        HashMode::P2SH.spec_to_u8() == 1,
        HashMode::P2WPKH.spec_to_u8() == 2,
        HashMode::P2WSH.spec_to_u8() == 3,
        HashMode::spec_from_u8(b) is Some <==> b <= 3,
{
}

/// Hash modes and address versions: P2PKH gets the single-signature
/// version of each network, and every other mode gets the multi-signature
/// version of that network, so all the other modes share one version.
pub proof fn law_hash_mode_version_bytes(m: HashMode, n: HashMode)
    ensures
        m == HashMode::P2PKH ==> m.spec_to_version_mainnet()
            == c32::C32_ADDRESS_VERSION_MAINNET_SINGLESIG && m.spec_to_version_testnet()
            == c32::C32_ADDRESS_VERSION_TESTNET_SINGLESIG,
        m != HashMode::P2PKH ==> m.spec_to_version_mainnet()
            == c32::C32_ADDRESS_VERSION_MAINNET_MULTISIG && m.spec_to_version_testnet()
            == c32::C32_ADDRESS_VERSION_TESTNET_MULTISIG,
        m != HashMode::P2PKH && n != HashMode::P2PKH ==> m.spec_to_version_mainnet()
            == n.spec_to_version_mainnet() && m.spec_to_version_testnet()
            == n.spec_to_version_testnet(),
        m.spec_to_version_testnet() == n.spec_to_version_testnet() <==> (m == HashMode::P2PKH) == (
        n == HashMode::P2PKH),
{
}

/// Asset information reads an address, then a contract name, then a clarity
/// name: an input too short for the address is the end of the input, and
/// after the address each name's failure is reported as that name reports
/// it (a bad contract-name length as `parser_invalid_contract_name`, a bad
/// asset-name length as `parser_invalid_asset_name`).
pub proof fn law_asset_info_parts(s: Seq<u8>, a: Seq<u8>, t: Seq<u8>)
    ensures
        s.len() < STACKS_ADDR_LEN ==> AssetInfo::spec_from_bytes(s) == Err::<
            (Seq<u8>, (Seq<u8>, Seq<u8>, Seq<u8>)),
            ParserError,
        >(ParserError::parser_unexpected_buffer_end),
        a.len() == STACKS_ADDR_LEN ==> AssetInfo::spec_from_bytes(a + t) == match ContractName::spec_from_bytes(t) {
            Err(e) => Err(e),
            Ok((r1, c)) => match ClarityName::spec_from_bytes(r1) {
                Err(e) => Err(e),
                Ok((r2, n)) => Ok((r2, (a, c, n))),
            },
        },
{
    if a.len() == STACKS_ADDR_LEN {
        lemma_address_encode_parse(a, t);
    }
}

/// Contract principals read an address, then a contract name: an input too
/// short for the address is the end of the input, and after the address
/// the name's failure is reported as the name reports it.
pub proof fn law_contract_principal_parts(s: Seq<u8>, a: Seq<u8>, t: Seq<u8>)
    ensures
        s.len() < STACKS_ADDR_LEN ==> ContractPrincipal::spec_from_bytes(s) == Err::<
            (Seq<u8>, (Seq<u8>, Seq<u8>)),
            ParserError,
        >(ParserError::parser_unexpected_buffer_end),
        a.len() == STACKS_ADDR_LEN ==> ContractPrincipal::spec_from_bytes(a + t) == match ContractName::spec_from_bytes(t) {
            Err(e) => Err(e),
            Ok((r1, c)) => Ok((r1, (a, c))),
        },
{
    if a.len() == STACKS_ADDR_LEN {
        lemma_address_encode_parse(a, t);
    }
}

/// Error codes: 0 means success and belongs to `parser_ok` alone, and every
/// code is below 25.
pub proof fn law_error_code_zero_is_ok(e: ParserError)
    ensures
        e.spec_code() == 0 <==> e == ParserError::parser_ok,
        e.spec_code() < 25,
{
}

} // verus!
