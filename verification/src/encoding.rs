//! The byte strings from which identifiers are derived.

use soroban_sdk::xdr::{
    AccountId, Limits, PublicKey, ScAddress, ScSymbol, ScVal, ScVec, Uint256, WriteXdr,
};
use vstd::prelude::*;
use crate::host::{Address, AddressKind, BytesN};
use crate::numeric::be_bytes;

verus! {

/// The XDR form of an address value: the tag of address values, the tag of the
/// address's kind, for an account the tag of its key type, and the identifier.
pub open spec fn address_xdr(address: Address) -> Seq<u8> {
    be_bytes(18, 4) + (match address.kind {
        AddressKind::Account => be_bytes(0, 4) + be_bytes(0, 4),
        AddressKind::Contract => be_bytes(1, 4),
    }) + address.id@
}

/// The number of bytes that bring a length of `n` to a multiple of four.
pub open spec fn padding(n: nat) -> nat {
    ((4 - n % 4) % 4) as nat
}

/// The XDR form of a symbol value: its tag, its length, and its characters
/// padded with zero bytes.
pub open spec fn symbol_xdr(text: Seq<u8>) -> Seq<u8> {
    be_bytes(15, 4) + be_bytes(text.len() as int, 4) + text + Seq::new(
        padding(text.len()),
        |i: int| 0u8,
    )
}

/// The XDR form of an unsigned 32-bit value.
pub open spec fn u32_xdr(n: u32) -> Seq<u8> {
    be_bytes(3, 4) + be_bytes(n as int, 4)
}

/// The XDR form of the vector value `[owner, name, vintage_year]`: its tag, a
/// mark that it is there, its length, and its elements.
pub open spec fn project_xdr(owner: Address, name: Seq<u8>, vintage_year: u32) -> Seq<u8> {
    be_bytes(16, 4) + be_bytes(1, 4) + be_bytes(3, 4) + address_xdr(owner) + symbol_xdr(name)
        + u32_xdr(vintage_year)
}

/// The XDR form of a value of 32 bytes: its tag, its length, and the bytes.
pub open spec fn bytes_xdr(bytes: BytesN<32>) -> Seq<u8> {
    be_bytes(13, 4) + be_bytes(32, 4) + bytes@
}

/// The XDR form of a signed 128-bit value.
pub open spec fn i128_xdr(n: i128) -> Seq<u8> {
    be_bytes(10, 4) + be_bytes(n as int, 16)
}

/// The XDR form of the vector value `[seller, project_id, amount, sequence]`.
pub open spec fn listing_xdr(
    seller: Address,
    project_id: BytesN<32>,
    amount: i128,
    sequence: u32,
) -> Seq<u8> {
    be_bytes(16, 4) + be_bytes(1, 4) + be_bytes(4, 4) + address_xdr(seller) + bytes_xdr(project_id)
        + i128_xdr(amount) + u32_xdr(sequence)
}

/// Calls `soroban_sdk::xdr::WriteXdr::to_xdr` on the `ScVal` vector of an
/// address, a symbol and a number. The result is the XDR form of that vector,
/// spelled out by `project_xdr`. A symbol value takes at most 32 characters.
#[verifier::external_body]
pub(crate) fn encode_project(owner: &Address, name: &[u8], vintage_year: u32) -> (r: Vec<u8>)
    requires
        name@.len() <= 32,
    ensures
        r@ == project_xdr(*owner, name@, vintage_year),
{
    let owner = match owner.kind {
        AddressKind::Account => ScAddress::Account(
            AccountId(PublicKey::PublicKeyTypeEd25519(Uint256(owner.id.bytes))),
        ),
        AddressKind::Contract => ScAddress::Contract(soroban_sdk::xdr::Hash(owner.id.bytes)),
    };
    let name = ScSymbol(name.try_into().unwrap());
    let record = vec![ScVal::Address(owner), ScVal::Symbol(name), ScVal::U32(vintage_year)];
    let record = ScVec(record.try_into().unwrap());
    ScVal::Vec(Some(record)).to_xdr(Limits::none()).unwrap()
}

/// Calls `soroban_sdk::xdr::WriteXdr::to_xdr` on the `ScVal` vector of an
/// address, a byte string and two numbers. The result is the XDR form of that
/// vector, spelled out by `listing_xdr`.
#[verifier::external_body]
pub(crate) fn encode_listing(
    seller: &Address,
    project_id: &BytesN<32>,
    amount: i128,
    sequence: u32,
) -> (r: Vec<u8>)
    ensures
        r@ == listing_xdr(*seller, *project_id, amount, sequence),
{
    let seller = match seller.kind {
        AddressKind::Account => ScAddress::Account(
            AccountId(PublicKey::PublicKeyTypeEd25519(Uint256(seller.id.bytes))),
        ),
        AddressKind::Contract => ScAddress::Contract(soroban_sdk::xdr::Hash(seller.id.bytes)),
    };
    let project_id = ScVal::try_from(project_id.bytes).unwrap();
    let amount = ScVal::from(amount);
    let record = vec![ScVal::Address(seller), project_id, amount, ScVal::U32(sequence)];
    let record = ScVec(record.try_into().unwrap());
    ScVal::Vec(Some(record)).to_xdr(Limits::none()).unwrap()
}

} // verus!
