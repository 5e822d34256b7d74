//! Laws of the arithmetic that the contracts share, and of the bytes that they
//! sign and hash.

use vstd::prelude::*;
use vstd::arithmetic::div_mod::{
    lemma_fundamental_div_mod, lemma_fundamental_div_mod_converse, lemma_mod_bound,
};
use vstd::arithmetic::power::{lemma_pow_positive, pow};
use crate::crypto::{digests_collide, sha256_digest};
use crate::encoding::{listing_xdr, project_xdr};
use crate::host::{symbol_text, Address, AddressKind, BytesN, Env};
use crate::numeric::{be_bytes, clamped, fits, lemma_be_bytes_len, quotient, share_of};

verus! {

/// A quotient times its divisor falls short of the dividend by a remainder that
/// is smaller than the divisor and has the dividend's sign.
pub proof fn law_quotient_leaves_a_remainder(a: int, b: int)
    requires
        b != 0,
    ensures
        ({
            let rest = a - b * quotient(a, b);
            &&& a >= 0 ==> rest >= 0
            &&& a <= 0 ==> rest <= 0
            &&& b > 0 ==> -b < rest < b
            &&& b < 0 ==> b < rest < -b
        }),
{
    let m = if a >= 0 {
        a
    } else {
        -a
    };
    let d = if b >= 0 {
        b
    } else {
        -b
    };
    lemma_fundamental_div_mod(m, d);
    lemma_mod_bound(m, d);
    let k = m / d;
    assert((-d) * k == -(d * k) && d * (-k) == -(d * k) && (-d) * (-k) == d * k)
        by (nonlinear_arith);
}

/// A number fits where it is at least the smallest and at most the largest of
/// 128 bits with a sign.
pub proof fn law_fits_is_a_range(n: int)
    ensures
        fits(n) <==> -0x8000_0000_0000_0000_0000_0000_0000_0000 <= n
            <= 0x7fff_ffff_ffff_ffff_ffff_ffff_ffff_ffff,
{
}

/// Clamping keeps what lies in the range and moves the rest to the nearer bound:
/// nothing in the range is closer.
pub proof fn law_clamped_is_the_nearest(n: int, other: int)
    requires
        i128::MIN <= other <= i128::MAX,
    ensures
        i128::MIN <= clamped(n) <= i128::MAX,
        i128::MIN <= n <= i128::MAX ==> clamped(n) == n,
        n <= other ==> n <= clamped(n) <= other || clamped(n) == n,
        n >= other ==> n >= clamped(n) >= other || clamped(n) == n,
{
}

/// A share taken ten thousand times falls short of the amount times the rate by
/// less than ten thousand, toward zero.
pub proof fn law_share_is_a_part_in_ten_thousand(amount: int, bps: int)
    ensures
        amount * bps >= 0 ==> 10_000 * share_of(amount, bps) <= amount * bps < 10_000 * share_of(
            amount,
            bps,
        ) + 10_000,
        amount * bps <= 0 ==> 10_000 * share_of(amount, bps) - 10_000 < amount * bps <= 10_000
            * share_of(amount, bps),
{
}

proof fn lemma_floor_twice(n: int, p: int)
    requires
        p > 0,
    ensures
        (n / 256) / p == n / (256 * p),
{
    let a = n / 256;
    let k = a / p;
    let s = a % p;
    lemma_fundamental_div_mod(a, p);
    lemma_mod_bound(a, p);
    let rest = 256 * s + n % 256;
    assert(n == k * (256 * p) + rest) by (nonlinear_arith)
        requires
            n == 256 * a + n % 256,
            a == p * k + s,
            rest == 256 * s + n % 256,
    ;
    assert(256 * p > 0);
    lemma_fundamental_div_mod_converse(n, 256 * p, k, rest);
}

/// Each byte is a digit of the number to the base of 256, the last one the digit
/// of the ones. A negative number has the digits of its two's complement.
pub proof fn law_bytes_are_digits(n: int, width: nat, i: int)
    requires
        0 <= i < width,
    ensures
        be_bytes(n, width).len() == width,
        be_bytes(n, width)[i] == (n / pow(256, (width - 1 - i) as nat)) % 256,
    decreases width,
{
    lemma_be_bytes_len(n, width);
    let high = (width - 1) as nat;
    lemma_be_bytes_len(n / 256, high);
    reveal(pow);
    if i < high {
        let e = (high - 1 - i) as nat;
        law_bytes_are_digits(n / 256, high, i);
        assert(be_bytes(n, width)[i] == be_bytes(n / 256, high)[i]);
        lemma_pow_positive(256, e);
        lemma_floor_twice(n, pow(256, e));
        assert(pow(256, (e + 1) as nat) == 256 * pow(256, e));
    } else {
        assert(pow(256, 0) == 1);
    }
}

/// The four bytes of a number of 32 bits.
pub proof fn law_four_bytes(n: u32)
    ensures
        be_bytes(n as int, 4) == seq![
            (n / 0x100_0000) as u8,
            (n / 0x1_0000 % 256) as u8,
            (n / 0x100 % 256) as u8,
            (n % 256) as u8,
        ],
{
    reveal_with_fuel(be_bytes, 5);
    lemma_be_bytes_len(n as int, 4);
    assert(be_bytes(n as int, 4) =~= seq![
        (n / 0x100_0000) as u8,
        (n / 0x1_0000 % 256) as u8,
        (n / 0x100 % 256) as u8,
        (n % 256) as u8,
    ]);
}

/// A byte string of fixed length stands for the bytes that it holds.
pub proof fn law_bytes_stand_for_themselves<const N: usize>(bytes: BytesN<N>, i: int)
    requires
        0 <= i < N,
    ensures
        bytes@.len() == N,
        bytes@[i] == bytes.bytes[i],
{
}

/// Two byte strings collide where they differ and have one digest.
pub proof fn law_collision(a: Seq<u8>, b: Seq<u8>)
    ensures
        digests_collide(a, b) <==> !(a =~= b) && sha256_digest(a) == sha256_digest(b),
{
}

/// A symbol has at most 32 characters, each of them a digit, a letter or an
/// underscore. Every such text is a symbol.
pub proof fn law_symbols_are_short_words(text: Seq<u8>)
    ensures
        symbol_text(text) <==> text.len() <= 32 && forall|i: int|
            0 <= i < text.len() ==> {
                ||| 48 <= #[trigger] text[i] <= 57
                ||| 65 <= text[i] <= 90
                ||| 97 <= text[i] <= 122
                ||| text[i] == 95
            },
{
    if symbol_text(text) {
        assert forall|i: int| 0 <= i < text.len() implies {
            ||| 48 <= #[trigger] text[i] <= 57
            ||| 65 <= text[i] <= 90
            ||| 97 <= text[i] <= 122
            ||| text[i] == 95
        } by {
            assert(crate::host::symbol_char(text[i]));
        }
    }
}

/// An address has authorized an invocation where it stands in the invocation's
/// list, and nowhere else.
pub proof fn law_authorization_is_listed(e: Env, address: Address)
    ensures
        e.authorizes(address) <==> exists|i: int|
            0 <= i < e.authorized@.len() && #[trigger] e.authorized@[i] == address,
{
}

spec fn address_head(kind: AddressKind) -> Seq<u8> {
    match kind {
        AddressKind::Account => seq![0u8, 0, 0, 18, 0, 0, 0, 0, 0, 0, 0, 0],
        AddressKind::Contract => seq![0u8, 0, 0, 18, 0, 0, 0, 1],
    }
}

proof fn lemma_tags()
    ensures
        be_bytes(0, 4) == seq![0u8, 0, 0, 0],
        be_bytes(1, 4) == seq![0u8, 0, 0, 1],
        be_bytes(3, 4) == seq![0u8, 0, 0, 3],
        be_bytes(4, 4) == seq![0u8, 0, 0, 4],
        be_bytes(10, 4) == seq![0u8, 0, 0, 10],
        be_bytes(13, 4) == seq![0u8, 0, 0, 13],
        be_bytes(15, 4) == seq![0u8, 0, 0, 15],
        be_bytes(16, 4) == seq![0u8, 0, 0, 16],
        be_bytes(18, 4) == seq![0u8, 0, 0, 18],
        be_bytes(32, 4) == seq![0u8, 0, 0, 32],
{
    law_four_bytes(0);
    law_four_bytes(1);
    law_four_bytes(3);
    law_four_bytes(4);
    law_four_bytes(10);
    law_four_bytes(13);
    law_four_bytes(15);
    law_four_bytes(16);
    law_four_bytes(18);
    law_four_bytes(32);
}

/// The bytes under a project's identifier: what comes before the owner, the
/// owner, the name with its length before it and zeros after it up to a multiple
/// of four, and the vintage.
pub proof fn law_project_bytes(owner: Address, name: Seq<u8>, vintage_year: u32, pad: nat)
    requires
        name.len() <= 32,
        pad < 4,
        (name.len() + pad) % 4 == 0,
    ensures
        owner.kind == AddressKind::Account ==> project_xdr(owner, name, vintage_year) == seq![
            0u8, 0, 0, 16, 0, 0, 0, 1, 0, 0, 0, 3, 0, 0, 0, 18, 0, 0, 0, 0, 0, 0, 0, 0,
        ] + owner.id.bytes@ + seq![0u8, 0, 0, 15, 0, 0, 0, name.len() as u8] + name + Seq::new(
            pad,
            |i: int| 0u8,
        ) + seq![
            0u8,
            0,
            0,
            3,
            (vintage_year / 0x100_0000) as u8,
            (vintage_year / 0x1_0000 % 256) as u8,
            (vintage_year / 0x100 % 256) as u8,
            (vintage_year % 256) as u8,
        ],
        owner.kind == AddressKind::Contract ==> project_xdr(owner, name, vintage_year) == seq![
            0u8, 0, 0, 16, 0, 0, 0, 1, 0, 0, 0, 3, 0, 0, 0, 18, 0, 0, 0, 1,
        ] + owner.id.bytes@ + seq![0u8, 0, 0, 15, 0, 0, 0, name.len() as u8] + name + Seq::new(
            pad,
            |i: int| 0u8,
        ) + seq![
            0u8,
            0,
            0,
            3,
            (vintage_year / 0x100_0000) as u8,
            (vintage_year / 0x1_0000 % 256) as u8,
            (vintage_year / 0x100 % 256) as u8,
            (vintage_year % 256) as u8,
        ],
{
    lemma_tags();
    law_four_bytes(name.len() as u32);
    law_four_bytes(vintage_year);
    let head = if owner.kind == AddressKind::Account {
        seq![0u8, 0, 0, 16, 0, 0, 0, 1, 0, 0, 0, 3, 0, 0, 0, 18, 0, 0, 0, 0, 0, 0, 0, 0]
    } else {
        seq![0u8, 0, 0, 16, 0, 0, 0, 1, 0, 0, 0, 3, 0, 0, 0, 18, 0, 0, 0, 1]
    };
    let tail = seq![
        0u8,
        0,
        0,
        3,
        (vintage_year / 0x100_0000) as u8,
        (vintage_year / 0x1_0000 % 256) as u8,
        (vintage_year / 0x100 % 256) as u8,
        (vintage_year % 256) as u8,
    ];
    assert(crate::encoding::padding(name.len()) == pad);
    assert(project_xdr(owner, name, vintage_year) =~= head + owner.id.bytes@ + seq![
        0u8,
        0,
        0,
        15,
        0,
        0,
        0,
        name.len() as u8,
    ] + name + Seq::new(pad, |i: int| 0u8) + tail);
}

/// The bytes under a listing's identifier: what comes before the seller, the
/// seller, the project, the sixteen bytes of the amount, and the ledger.
pub proof fn law_listing_bytes(
    seller: Address,
    project_id: BytesN<32>,
    amount: i128,
    sequence: u32,
    i: int,
)
    requires
        0 <= i < 16,
    ensures
        ({
            let bytes = listing_xdr(seller, project_id, amount, sequence);
            let at: int = if seller.kind == AddressKind::Account {
                24
            } else {
                20
            };
            &&& bytes.len() == at + 100
            &&& bytes.take(at) == (if seller.kind == AddressKind::Account {
                seq![0u8, 0, 0, 16, 0, 0, 0, 1, 0, 0, 0, 4, 0, 0, 0, 18, 0, 0, 0, 0, 0, 0, 0, 0]
            } else {
                seq![0u8, 0, 0, 16, 0, 0, 0, 1, 0, 0, 0, 4, 0, 0, 0, 18, 0, 0, 0, 1]
            })
            &&& bytes.subrange(at, at + 32) == seller.id.bytes@
            &&& bytes.subrange(at + 32, at + 40) == seq![0u8, 0, 0, 13, 0, 0, 0, 32]
            &&& bytes.subrange(at + 40, at + 72) == project_id.bytes@
            &&& bytes.subrange(at + 72, at + 76) == seq![0u8, 0, 0, 10]
            &&& bytes[at + 76 + i] == (amount as int / pow(256, (15 - i) as nat)) % 256
            &&& bytes.subrange(at + 92, at + 100) == seq![
                0u8,
                0,
                0,
                3,
                (sequence / 0x100_0000) as u8,
                (sequence / 0x1_0000 % 256) as u8,
                (sequence / 0x100 % 256) as u8,
                (sequence % 256) as u8,
            ]
        }),
{
    lemma_tags();
    law_four_bytes(sequence);
    law_bytes_are_digits(amount as int, 16, i);
    let bytes = listing_xdr(seller, project_id, amount, sequence);
    let at: int = if seller.kind == AddressKind::Account {
        24
    } else {
        20
    };
    let head = seq![0u8, 0, 0, 16, 0, 0, 0, 1, 0, 0, 0, 4] + address_head(seller.kind);
    assert(bytes =~= head + seller.id.bytes@ + seq![0u8, 0, 0, 13, 0, 0, 0, 32]
        + project_id.bytes@ + seq![0u8, 0, 0, 10] + be_bytes(amount as int, 16) + seq![
        0u8,
        0,
        0,
        3,
    ] + be_bytes(sequence as int, 4));
    assert(bytes.take(at) =~= head);
    assert(head =~= (if seller.kind == AddressKind::Account {
        seq![0u8, 0, 0, 16, 0, 0, 0, 1, 0, 0, 0, 4, 0, 0, 0, 18, 0, 0, 0, 0, 0, 0, 0, 0]
    } else {
        seq![0u8, 0, 0, 16, 0, 0, 0, 1, 0, 0, 0, 4, 0, 0, 0, 18, 0, 0, 0, 1]
    }));
    assert(bytes.subrange(at, at + 32) =~= seller.id.bytes@);
    assert(bytes.subrange(at + 40, at + 72) =~= project_id.bytes@);
    assert(bytes[at + 76 + i] == be_bytes(amount as int, 16)[i]);
}

} // verus!
