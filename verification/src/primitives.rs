//! Fixed-size values that travel through the engine: addresses, hashes and
//! 256-bit amounts.

use vstd::prelude::*;
use vstd::std_specs::cmp::PartialEqSpecImpl;

verus! {

/// A 20-byte address of the embedded virtual machine.
#[derive(Clone, Copy, Debug, Eq)]
pub struct H160(pub [u8; 20]);

/// An address is spoken of as a 20-byte address or as an `H160`.
pub type Address = H160;

impl View for H160 {
    type V = Seq<u8>;

    open spec fn view(&self) -> Seq<u8> {
        self.0@
    }
}

impl H160 {
    /// The address whose bytes are all zero.
    pub fn zero() -> (r: Self)
        ensures
            r@ == Seq::new(20, |i: int| 0u8),
    {
        let r = H160([0u8; 20]);
        assert(r@ =~= Seq::new(20, |i: int| 0u8));
        r
    }

    /// The bytes of the address, most significant first.
    pub fn as_bytes(&self) -> (r: &[u8; 20])
        ensures
            r@ == self@,
    {
        &self.0
    }
}

impl PartialEq for H160 {
    fn eq(&self, other: &Self) -> (r: bool) {
        let mut i: usize = 0;
        while i < 20
            invariant
                i <= 20,
                forall|j: int| 0 <= j < i ==> self.0[j] == other.0[j],
            decreases 20 - i,
        {
            if self.0[i] != other.0[i] {
                return false;
            }
            i += 1;
        }
        assert(self.0@ =~= other.0@);
        true
    }
}

impl PartialEqSpecImpl for H160 {
    open spec fn obeys_eq_spec() -> bool {
        true
    }

    open spec fn eq_spec(&self, other: &Self) -> bool {
        self@ == other@
    }
}

impl Default for H160 {
    fn default() -> (r: Self)
        ensures
            r@ == Seq::new(20, |i: int| 0u8),
    {
        H160::zero()
    }
}

/// A 32-byte hash or storage key.
#[derive(Clone, Copy, Debug, Eq)]
pub struct H256(pub [u8; 32]);

impl View for H256 {
    type V = Seq<u8>;

    open spec fn view(&self) -> Seq<u8> {
        self.0@
    }
}

impl H256 {
    /// The hash whose bytes are all zero.
    pub fn zero() -> (r: Self)
        ensures
            r@ == Seq::new(32, |i: int| 0u8),
    {
        let r = H256([0u8; 32]);
        assert(r@ =~= Seq::new(32, |i: int| 0u8));
        r
    }

    /// The bytes of the hash.
    pub fn as_bytes(&self) -> (r: &[u8; 32])
        ensures
            r@ == self@,
    {
        &self.0
    }
}

impl PartialEq for H256 {
    fn eq(&self, other: &Self) -> (r: bool) {
        let mut i: usize = 0;
        while i < 32
            invariant
                i <= 32,
                forall|j: int| 0 <= j < i ==> self.0[j] == other.0[j],
            decreases 32 - i,
        {
            if self.0[i] != other.0[i] {
                return false;
            }
            i += 1;
        }
        assert(self.0@ =~= other.0@);
        true
    }
}

impl PartialEqSpecImpl for H256 {
    open spec fn obeys_eq_spec() -> bool {
        true
    }

    open spec fn eq_spec(&self, other: &Self) -> bool {
        self@ == other@
    }
}

impl Default for H256 {
    fn default() -> (r: Self)
        ensures
            r@ == Seq::new(32, |i: int| 0u8),
    {
        H256::zero()
    }
}

/// Two to the power 64, the weight of one limb of a [`U256`].
pub open spec fn limb_base() -> nat {
    0x1_0000_0000_0000_0000
}

/// An unsigned 256-bit integer, held as four 64-bit limbs, least significant
/// first.
#[derive(Clone, Copy, Debug, Eq)]
pub struct U256(pub [u64; 4]);

impl View for U256 {
    type V = Seq<u64>;

    open spec fn view(&self) -> Seq<u64> {
        self.0@
    }
}

impl U256 {
    /// The number that the four limbs stand for.
    pub open spec fn value(&self) -> nat {
        self.0[0] as nat + limb_base() * (self.0[1] as nat + limb_base() * (self.0[2] as nat
            + limb_base() * (self.0[3] as nat)))
    }

    /// Zero.
    pub fn zero() -> (r: Self)
        ensures
            r.value() == 0,
            r@ == Seq::new(4, |i: int| 0u64),
    {
        let r = U256([0u64; 4]);
        assert(r@ =~= Seq::new(4, |i: int| 0u64));
        r
    }

    /// The 256-bit integer equal to `amount`.
    pub fn from_u64(amount: u64) -> (r: Self)
        ensures
            r.value() == amount,
            r@ == seq![amount, 0u64, 0u64, 0u64],
    {
        let r = U256([amount, 0, 0, 0]);
        assert(r@ =~= seq![amount, 0u64, 0u64, 0u64]);
        r
    }

    /// Whether the integer is zero.
    pub fn is_zero(&self) -> (r: bool)
        ensures
            r == (self.value() == 0),
    {
        let r = self.0[0] == 0 && self.0[1] == 0 && self.0[2] == 0 && self.0[3] == 0;
        proof {
            let a = self.0[1] as nat + limb_base() * (self.0[2] as nat + limb_base() * (
            self.0[3] as nat));
            let b = self.0[2] as nat + limb_base() * (self.0[3] as nat);
            assert(b > 0 ==> limb_base() * b > 0) by (nonlinear_arith)
                requires
                    limb_base() > 0,
            ;
            assert(a > 0 ==> limb_base() * a > 0) by (nonlinear_arith)
                requires
                    limb_base() > 0,
            ;
            assert(self.0[3] > 0 ==> limb_base() * (self.0[3] as nat) > 0) by (nonlinear_arith)
                requires
                    limb_base() > 0,
            ;
        }
        r
    }
}

impl PartialEq for U256 {
    fn eq(&self, other: &Self) -> (r: bool) {
        let r = self.0[0] == other.0[0] && self.0[1] == other.0[1] && self.0[2] == other.0[2]
            && self.0[3] == other.0[3];
        assert(r == (self.0@ =~= other.0@));
        r
    }
}

impl PartialEqSpecImpl for U256 {
    open spec fn obeys_eq_spec() -> bool {
        true
    }

    open spec fn eq_spec(&self, other: &Self) -> bool {
        self@ == other@
    }
}

impl Default for U256 {
    fn default() -> (r: Self)
        ensures
            r.value() == 0,
            r@ == Seq::new(4, |i: int| 0u64),
    {
        U256::zero()
    }
}

/// An amount in the smallest unit of the embedded virtual machine.
#[derive(Clone, Copy, Debug, Eq)]
pub struct Wei(pub U256);

impl View for Wei {
    type V = Seq<u64>;

    open spec fn view(&self) -> Seq<u64> {
        self.0@
    }
}

impl Wei {
    /// The number of units.
    pub open spec fn value(&self) -> nat {
        self.0.value()
    }

    /// No units at all.
    pub fn zero() -> (r: Self)
        ensures
            r.value() == 0,
            r@ == Seq::new(4, |i: int| 0u64),
    {
        Wei(U256::zero())
    }

    /// An amount given as a 256-bit integer.
    pub fn new(amount: U256) -> (r: Self)
        ensures
            r.0 == amount,
    {
        Wei(amount)
    }

    /// An amount given as a 64-bit integer.
    pub fn new_u64(amount: u64) -> (r: Self)
        ensures
            r.value() == amount,
            r@ == seq![amount, 0u64, 0u64, 0u64],
    {
        Wei(U256::from_u64(amount))
    }

    /// The amount as a 256-bit integer.
    pub fn raw(&self) -> (r: U256)
        ensures
            r == self.0,
    {
        self.0
    }

    /// Whether the amount is zero.
    pub fn is_zero(&self) -> (r: bool)
        ensures
            r == (self.value() == 0),
    {
        self.0.is_zero()
    }
}

impl PartialEq for Wei {
    fn eq(&self, other: &Self) -> (r: bool) {
        self.0 == other.0
    }
}

impl PartialEqSpecImpl for Wei {
    open spec fn obeys_eq_spec() -> bool {
        true
    }

    open spec fn eq_spec(&self, other: &Self) -> bool {
        self@ == other@
    }
}

impl Default for Wei {
    fn default() -> (r: Self)
        ensures
            r.value() == 0,
            r@ == Seq::new(4, |i: int| 0u64),
    {
        Wei::zero()
    }
}

} // verus!
