use vstd::prelude::*;

verus! {

/// 2^64, the weight of the second 64-bit word of a `U256`.
pub open spec fn word() -> nat {
    0x1_0000_0000_0000_0000nat
}

/// The bytes of the all-zero address.
pub open spec fn zero_address() -> Seq<u8> {
    Seq::new(20, |i: int| 0u8)
}

/// A 160-bit Ethereum address, as its 20 bytes.
#[derive(Clone, Copy, Debug, PartialEq, Eq)]
pub struct H160 {
    pub bytes: [u8; 20],
}

impl View for H160 {
    type V = Seq<u8>;

    open spec fn view(&self) -> Seq<u8> {
        self.bytes@
    }
}

impl H160 {
    /// The address made of the given bytes.
    pub fn from_bytes(bytes: [u8; 20]) -> (r: H160)
        ensures
            r@ == bytes@,
    {
        H160 { bytes }
    }

    /// The all-zero address, which is also the default one.
    pub fn zero() -> (r: H160)
        ensures
            r@ == zero_address(),
    {
        let r = H160 { bytes: [0u8; 20] };
        assert(r@ =~= zero_address());
        r
    }

    /// Whether two addresses hold the same bytes.
    pub fn same_as(&self, other: &H160) -> (r: bool)
        ensures
            r == (self@ == other@),
    {
        let mut i: usize = 0;
        while i < 20
            invariant
                0 <= i <= 20,
                self@.len() == 20,
                other@.len() == 20,
                forall|j: int| 0 <= j < i ==> self@[j] == other@[j],
            decreases 20 - i,
        {
            if self.bytes[i] != other.bytes[i] {
                return false;
            }
            i = i + 1;
        }
        assert(self@ =~= other@);
        true
    }
}

/// A 256-bit unsigned integer, as four 64-bit words with the least significant first.
#[derive(Clone, Copy, Debug, PartialEq, Eq)]
pub struct U256 {
    pub words: [u64; 4],
}

impl U256 {
    /// The number that the words stand for.
    pub open spec fn value(self) -> nat {
        self.words@[0] as nat + self.words@[1] as nat * word() + self.words@[2] as nat * word()
            * word() + self.words@[3] as nat * word() * word() * word()
    }

    /// Whether the number is below 2^128, that is, fits in a `u128`.
    pub open spec fn fits_u128(self) -> bool {
        self.words@[2] == 0 && self.words@[3] == 0
    }

    /// The number `value` as a `U256`.
    pub fn from_u128(value: u128) -> (r: U256)
        ensures
            r.value() == value,
            r.fits_u128(),
    {
        let low: u64 = (value % 0x1_0000_0000_0000_0000u128) as u64;
        let high: u64 = (value / 0x1_0000_0000_0000_0000u128) as u64;
        let r = U256 { words: [low, high, 0, 0] };
        assert(r.value() == value) by {
            assert(low + high * word() == value);
        }
        r
    }

    /// The number as a `u128`; it must be below 2^128.
    pub fn as_u128(&self) -> (r: u128)
        requires
            self.fits_u128(),
        ensures
            r == self.value(),
    {
        let low = self.words[0] as u128;
        let high = self.words[1] as u128;
        assert(high * word() + low < 0x1_0000_0000_0000_0000_0000_0000_0000_0000nat) by (nonlinear_arith)
            requires
                high < word(),
                low < word(),
                word() == 0x1_0000_0000_0000_0000nat,
        ;
        high * 0x1_0000_0000_0000_0000u128 + low
    }
}

/// A `U256` fits in a `u128` exactly when its value is below 2^128.
pub proof fn lemma_fits_u128(n: U256)
    ensures
        n.fits_u128() <==> n.value() < word() * word(),
{
    let w0 = n.words@[0] as nat;
    let w1 = n.words@[1] as nat;
    let w2 = n.words@[2] as nat;
    let w3 = n.words@[3] as nat;
    let b = word();
    assert(w0 + w1 * b < b * b) by (nonlinear_arith)
        requires
            w0 < b,
            w1 < b,
    ;
    assert(w2 != 0 || w3 != 0 ==> w2 * b * b + w3 * b * b * b >= b * b) by (nonlinear_arith)
        requires
            b > 0,
    ;
    assert(w1 * b >= 0 && w2 * b * b >= 0 && w3 * b * b * b >= 0) by (nonlinear_arith)
        requires
            b > 0,
    ;
}

/// The bridge channel that carries an outbound message.
#[derive(Clone, Copy, Debug, PartialEq, Eq)]
pub enum ChannelId {
    Basic,
    Incentivized,
}

/// The token symbols of the chain's currencies that this library deals in.
#[derive(Clone, Copy, Debug, PartialEq, Eq)]
pub enum TokenSymbol {
    VETH,
}

/// A currency of the chain's multi-currency ledger.
#[derive(Clone, Copy, Debug, PartialEq, Eq)]
pub enum CurrencyId {
    Token(TokenSymbol),
}

} // verus!
