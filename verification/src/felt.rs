use vstd::prelude::*;
use vstd::arithmetic::div_mod::{
    lemma_fundamental_div_mod, lemma_fundamental_div_mod_converse, lemma_mod_sub_multiples_vanish,
    lemma_small_mod,
};

verus! {

/// Little-endian 64-bit limbs of the prime modulus
/// p = 0x40000000000000000000000000000000224698fc094cf91b992d30ed00000001,
/// the order of the base field over which the circuit's arithmetic runs.
pub const MOD_L0: u64 = 0x992d30ed00000001;
pub const MOD_L1: u64 = 0x224698fc094cf91b;
pub const MOD_L2: u64 = 0x0000000000000000;
pub const MOD_L3: u64 = 0x4000000000000000;

/// 2^64, the weight of one limb.
pub open spec fn base1() -> nat {
    0x1_0000_0000_0000_0000nat
}

/// 2^128.
pub open spec fn base2() -> nat {
    0x1_0000_0000_0000_0000_0000_0000_0000_0000nat
}

/// 2^192.
pub open spec fn base3() -> nat {
    0x1_0000_0000_0000_0000_0000_0000_0000_0000_0000_0000_0000_0000nat
}

/// 2^256.
pub open spec fn base4() -> nat {
    0x1_0000_0000_0000_0000_0000_0000_0000_0000_0000_0000_0000_0000_0000_0000_0000_0000nat
}

/// The field modulus as a mathematical integer.
pub open spec fn modulus() -> nat {
    (MOD_L0 + MOD_L1 * base1() + MOD_L2 * base2() + MOD_L3 * base3()) as nat
}

/// Field addition: the row identity and the recurrence are both stated over it.
pub open spec fn fadd(x: nat, y: nat) -> nat {
    (x + y) % modulus()
}

/// A field element, held as four little-endian 64-bit limbs of its
/// canonical (fully reduced) representative.
#[derive(Clone, Copy, Debug, PartialEq, Eq, Structural, Hash)]
pub struct Felt {
    pub l0: u64,
    pub l1: u64,
    pub l2: u64,
    pub l3: u64,
}

/// One limb of a carrying addition: returns `(low, carry)` with
/// `x + y + cin == carry * 2^64 + low`.
fn limb_sum(x: u64, y: u64, cin: u64) -> (r: (u64, u64))
    requires
        cin <= 1,
    ensures
        x + y + cin == r.1 * base1() + r.0,
        r.1 <= 1,
{
    let t: u128 = x as u128 + y as u128 + cin as u128;
    proof {
        lemma_fundamental_div_mod(t as int, base1() as int);
    }
    let lo: u64 = (t % 0x1_0000_0000_0000_0000u128) as u64;
    let hi: u64 = (t / 0x1_0000_0000_0000_0000u128) as u64;
    (lo, hi)
}

/// One limb of a borrowing subtraction: returns `(low, borrow)` with
/// `x - y - bin == low - borrow * 2^64`.
fn limb_diff(x: u64, y: u64, bin: u64) -> (r: (u64, u64))
    requires
        bin <= 1,
    ensures
        x - y - bin == r.0 - r.1 * base1(),
        r.1 <= 1,
        r.0 < base1(),
{
    let t: u128 = 0x1_0000_0000_0000_0000u128 + x as u128 - y as u128 - bin as u128;
    proof {
        lemma_fundamental_div_mod(t as int, base1() as int);
    }
    let lo: u64 = (t % 0x1_0000_0000_0000_0000u128) as u64;
    let q: u64 = (t / 0x1_0000_0000_0000_0000u128) as u64;
    (lo, 1 - q)
}

impl Felt {
    /// The integer this limb vector denotes.
    pub open spec fn val(self) -> nat {
        (self.l0 + self.l1 * base1() + self.l2 * base2() + self.l3 * base3()) as nat
    }

    /// A well-formed element is fully reduced.
    pub open spec fn wf(self) -> bool {
        self.val() < modulus()
    }

    /// The additive identity.
    pub fn zero() -> (r: Felt)
        ensures
            r.wf(),
            r.val() == 0,
    {
        Felt { l0: 0, l1: 0, l2: 0, l3: 0 }
    }

    /// Embeds a small integer into the field.
    pub fn from_u64(x: u64) -> (r: Felt)
        ensures
            r.wf(),
            r.val() == x,
    {
        Felt { l0: x, l1: 0, l2: 0, l3: 0 }
    }

    /// Builds an element from its four little-endian limbs, refusing a
    /// vector that is not a canonical representative.
    pub fn from_limbs(l0: u64, l1: u64, l2: u64, l3: u64) -> (r: Option<Felt>)
        ensures
            match r {
                Some(f) => f.wf() && f == (Felt { l0, l1, l2, l3 }),
                None => (Felt { l0, l1, l2, l3 }).val() >= modulus(),
            },
    {
        let f = Felt { l0, l1, l2, l3 };
        if f.geq_modulus() {
            None
        } else {
            Some(f)
        }
    }

    /// Compares the denoted integer against the modulus, limb by limb
    /// from the most significant end.
    fn geq_modulus(&self) -> (r: bool)
        ensures
            r == (self.val() >= modulus()),
    {
        if self.l3 != MOD_L3 {
            self.l3 > MOD_L3
        } else if self.l2 != MOD_L2 {
            self.l2 > MOD_L2
        } else if self.l1 != MOD_L1 {
            self.l1 > MOD_L1
        } else {
            self.l0 >= MOD_L0
        }
    }

    /// Subtracts the modulus from a limb vector that is at least as large.
    fn sub_modulus(self) -> (r: Felt)
        requires
            self.val() >= modulus(),
        ensures
            r.val() == self.val() - modulus(),
    {
        let (d0, b0) = limb_diff(self.l0, MOD_L0, 0);
        let (d1, b1) = limb_diff(self.l1, MOD_L1, b0);
        let (d2, b2) = limb_diff(self.l2, MOD_L2, b1);
        let (d3, b3) = limb_diff(self.l3, MOD_L3, b2);
        let r = Felt { l0: d0, l1: d1, l2: d2, l3: d3 };
        proof {
            assert(r.val() - b3 * base4() == self.val() - modulus());
        }
        r
    }

    /// Field addition of two reduced elements.
    pub fn add(self, rhs: Felt) -> (r: Felt)
        requires
            self.wf(),
            rhs.wf(),
        ensures
            r.wf(),
            r.val() == fadd(self.val(), rhs.val()),
    {
        let (s0, c0) = limb_sum(self.l0, rhs.l0, 0);
        let (s1, c1) = limb_sum(self.l1, rhs.l1, c0);
        let (s2, c2) = limb_sum(self.l2, rhs.l2, c1);
        let (s3, c3) = limb_sum(self.l3, rhs.l3, c2);
        let s = Felt { l0: s0, l1: s1, l2: s2, l3: s3 };
        proof {
            assert(s.val() + c3 * base4() == self.val() + rhs.val());
            assert(c3 == 0);
        }
        let r = if s.geq_modulus() {
            s.sub_modulus()
        } else {
            s
        };
        proof {
            if s.val() >= modulus() {
                lemma_mod_sub_multiples_vanish(s.val() as int, modulus() as int);
                lemma_small_mod((s.val() - modulus()) as nat, modulus());
            } else {
                lemma_small_mod(s.val(), modulus());
            }
        }
        r
    }
}

/// Two well-formed elements that denote the same integer are the same
/// limb vector: the canonical representation is unique.
pub proof fn lemma_val_injective(x: Felt, y: Felt)
    requires
        x.val() == y.val(),
    ensures
        x == y,
{
    let vx = x.val() as int;
    lemma_fundamental_div_mod_converse(
        vx,
        base1() as int,
        x.l1 + x.l2 * base1() + x.l3 * base2(),
        x.l0 as int,
    );
    lemma_fundamental_div_mod_converse(
        vx,
        base1() as int,
        y.l1 + y.l2 * base1() + y.l3 * base2(),
        y.l0 as int,
    );
    assert(x.l0 == y.l0);
    let q1 = x.l1 + x.l2 * base1() + x.l3 * base2();
    lemma_fundamental_div_mod_converse(
        q1,
        base1() as int,
        x.l2 + x.l3 * base1(),
        x.l1 as int,
    );
    lemma_fundamental_div_mod_converse(
        q1,
        base1() as int,
        y.l2 + y.l3 * base1(),
        y.l1 as int,
    );
    assert(x.l1 == y.l1);
    let q2 = x.l2 + x.l3 * base1();
    lemma_fundamental_div_mod_converse(q2, base1() as int, x.l3 as int, x.l2 as int);
    lemma_fundamental_div_mod_converse(q2, base1() as int, y.l3 as int, y.l2 as int);
    assert(x.l2 == y.l2 && x.l3 == y.l3);
}

} // verus!
