//! The values a contract receives from the chain it runs on: byte strings of
//! fixed length, addresses, symbols, and the context of one invocation.

use vstd::prelude::*;

verus! {

/// A byte string of exactly `N` bytes.
#[derive(Clone, Copy, Debug)]
pub struct BytesN<const N: usize> {
    pub bytes: [u8; N],
}

impl<const N: usize> BytesN<N> {
    /// Wraps an array of bytes.
    pub fn from_array(bytes: [u8; N]) -> (r: Self)
        ensures
            r.bytes == bytes,
    {
        BytesN { bytes }
    }

    /// The bytes as an array.
    pub fn to_array(&self) -> (r: [u8; N])
        ensures
            r == self.bytes,
    {
        self.bytes
    }
}

impl<const N: usize> View for BytesN<N> {
    type V = Seq<u8>;

    open spec fn view(&self) -> Seq<u8> {
        self.bytes@
    }
}

impl<const N: usize> PartialEq for BytesN<N> {
    fn eq(&self, other: &Self) -> (r: bool) {
        let mut i: usize = 0;
        while i < N
            invariant
                i <= N,
                forall|j: int| 0 <= j < i ==> self.bytes[j] == other.bytes[j],
            decreases N - i,
        {
            if self.bytes[i] != other.bytes[i] {
                return false;
            }
            i = i + 1;
        }
        assert(self.bytes =~= other.bytes);
        true
    }
}

impl<const N: usize> Eq for BytesN<N> {

}

impl<const N: usize> vstd::std_specs::cmp::PartialEqSpecImpl for BytesN<N> {
    open spec fn obeys_eq_spec() -> bool {
        true
    }

    open spec fn eq_spec(&self, other: &Self) -> bool {
        *self == *other
    }
}

/// The two kinds of address that hold balances and sign for calls.
#[derive(Clone, Copy, Debug, PartialEq, Eq, Structural)]
pub enum AddressKind {
    /// A key-holding account.
    Account,
    /// A deployed contract.
    Contract,
}

/// The address of an account or of a contract.
#[derive(Clone, Copy, Debug)]
pub struct Address {
    pub kind: AddressKind,
    /// The account's public key, or the contract's identifier.
    pub id: BytesN<32>,
}

impl PartialEq for Address {
    fn eq(&self, other: &Self) -> (r: bool) {
        self.kind == other.kind && self.id == other.id
    }
}

impl Eq for Address {

}

impl vstd::std_specs::cmp::PartialEqSpecImpl for Address {
    open spec fn obeys_eq_spec() -> bool {
        true
    }

    open spec fn eq_spec(&self, other: &Self) -> bool {
        *self == *other
    }
}

/// A short name of at most 32 characters out of `a-z`, `A-Z`, `0-9` and `_`.
#[derive(Clone, Copy, Debug)]
pub struct Symbol {
    /// The characters, followed by zero bytes.
    padded: BytesN<32>,
}

/// Whether `c` may stand in a symbol.
pub open spec fn symbol_char(c: u8) -> bool {
    ||| 0x30 <= c <= 0x39
    ||| 0x41 <= c <= 0x5a
    ||| c == 0x5f
    ||| 0x61 <= c <= 0x7a
}

/// Whether `text` can be written as a symbol.
pub open spec fn symbol_text(text: Seq<u8>) -> bool {
    text.len() <= 32 && forall|i: int| 0 <= i < text.len() ==> symbol_char(#[trigger] text[i])
}

/// `bytes` up to its first zero byte.
pub open spec fn before_zero(bytes: Seq<u8>) -> Seq<u8>
    decreases bytes.len(),
{
    if bytes.len() == 0 || bytes[0] == 0 {
        Seq::empty()
    } else {
        seq![bytes[0]] + before_zero(bytes.drop_first())
    }
}

proof fn lemma_before_zero(bytes: Seq<u8>, n: int)
    requires
        0 <= n <= bytes.len(),
        forall|i: int| 0 <= i < n ==> #[trigger] bytes[i] != 0,
        n == bytes.len() || bytes[n] == 0,
    ensures
        before_zero(bytes) == bytes.take(n),
    decreases n,
{
    if n == 0 {
        assert(bytes.take(0) =~= Seq::<u8>::empty());
    } else {
        let rest = bytes.drop_first();
        assert(bytes[0] != 0);
        assert forall|i: int| 0 <= i < n - 1 implies #[trigger] rest[i] != 0 by {
            assert(rest[i] == bytes[i + 1]);
        }
        lemma_before_zero(rest, n - 1);
        assert(bytes.take(n) =~= seq![bytes[0]] + rest.take(n - 1));
    }
}

impl View for Symbol {
    type V = Seq<u8>;

    /// The symbol's characters.
    closed spec fn view(&self) -> Seq<u8> {
        before_zero(self.padded@)
    }
}

impl Symbol {
    /// The symbol spelled `text`, if it is one.
    pub fn new(text: &[u8]) -> (r: Option<Symbol>)
        ensures
            match r {
                Some(symbol) => symbol_text(text@) && symbol@ == text@,
                None => !symbol_text(text@),
            },
    {
        if text.len() > 32 {
            return None;
        }
        let mut bytes: [u8; 32] = [0u8; 32];
        let mut i: usize = 0;
        while i < text.len()
            invariant
                i <= text@.len() <= 32,
                forall|j: int| 0 <= j < i ==> symbol_char(#[trigger] text@[j]),
                forall|j: int| 0 <= j < i ==> bytes@[j] == text@[j],
                forall|j: int| i <= j < 32 ==> bytes@[j] == 0,
            decreases text@.len() - i,
        {
            let c = text[i];
            let digit = 0x30 <= c && c <= 0x39;
            let upper = 0x41 <= c && c <= 0x5a;
            let lower = 0x61 <= c && c <= 0x7a;
            if !(digit || upper || lower || c == 0x5f) {
                assert(!symbol_char(text@[i as int]));
                return None;
            }
            bytes[i] = c;
            i = i + 1;
        }
        proof {
            lemma_before_zero(bytes@, text@.len() as int);
            assert(bytes@.take(text@.len() as int) =~= text@);
        }
        Some(Symbol { padded: BytesN { bytes } })
    }

    /// The symbol's characters.
    pub fn to_bytes(&self) -> (r: Vec<u8>)
        ensures
            r@ == self@,
            r@.len() <= 32,
    {
        let mut r: Vec<u8> = Vec::new();
        let mut i: usize = 0;
        while i < 32 && self.padded.bytes[i] != 0
            invariant
                i <= 32,
                r@ == self.padded@.take(i as int),
                forall|j: int| 0 <= j < i ==> #[trigger] self.padded@[j] != 0,
            decreases 32 - i,
        {
            r.push(self.padded.bytes[i]);
            i = i + 1;
            assert(r@ =~= self.padded@.take(i as int));
        }
        proof {
            lemma_before_zero(self.padded@, i as int);
        }
        r
    }
}

impl PartialEq for Symbol {
    fn eq(&self, other: &Self) -> (r: bool) {
        self.padded == other.padded
    }
}

impl Eq for Symbol {

}

impl vstd::std_specs::cmp::PartialEqSpecImpl for Symbol {
    open spec fn obeys_eq_spec() -> bool {
        true
    }

    open spec fn eq_spec(&self, other: &Self) -> bool {
        *self == *other
    }
}

/// What one invocation of a contract can see of the chain.
pub struct Env {
    /// The sequence number of the ledger that is being closed.
    pub sequence: u32,
    /// The addresses that have authorized the invocation.
    pub authorized: Vec<Address>,
}

impl Env {
    /// Whether `address` has authorized the invocation.
    pub open spec fn authorizes(&self, address: Address) -> bool {
        self.authorized@.contains(address)
    }

    /// Whether `address` has authorized the invocation.
    pub fn is_authorized(&self, address: &Address) -> (r: bool)
        ensures
            r == self.authorizes(*address),
    {
        let mut i: usize = 0;
        while i < self.authorized.len()
            invariant
                i <= self.authorized@.len(),
                forall|j: int| 0 <= j < i ==> self.authorized@[j] != *address,
            decreases self.authorized@.len() - i,
        {
            if self.authorized[i] == *address {
                return true;
            }
            i = i + 1;
        }
        false
    }
}

} // verus!
