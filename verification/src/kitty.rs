use vstd::prelude::*;

verus! {

/// One collectible: a fixed 16-byte attribute vector and an optional
/// listing price. `price == None` means the asset is not for sale.
pub struct Kitty {
    pub dna: Vec<u8>,
    pub price: Option<u64>,
}

impl Kitty {
    /// The attribute vector is exactly 16 bytes for the lifetime of the asset.
    pub open spec fn wf(self) -> bool {
        self.dna@.len() == 16
    }
}

impl Clone for Kitty {
    fn clone(&self) -> (r: Self)
        ensures
            r.dna@ == self.dna@,
            r.price == self.price,
    {
        let dna = self.dna.clone();
        proof {
            assert(dna@ =~= self.dna@);
        }
        Kitty { dna, price: self.price }
    }
}

/// Per-bit genetic combination: each bit of the offspring comes from the
/// first parent where the selector bit is 1, and from the second parent
/// where it is 0.
pub open spec fn crossover(selector: Seq<u8>, dna1: Seq<u8>, dna2: Seq<u8>) -> Seq<u8>
    recommends
        selector.len() == 16,
        dna1.len() == 16,
        dna2.len() == 16,
{
    Seq::new(16, |i: int| (selector[i] & dna1[i]) | (!selector[i] & dna2[i]))
}

/// For every byte position, the offspring byte equals
/// `(selector & dna1) | (!selector & dna2)`: the combination is a pure
/// function of the two parent attribute vectors and the drawn selector,
/// so identical parents and an identical selector always give an
/// identical offspring.
pub proof fn lemma_crossover_formula(selector: Seq<u8>, dna1: Seq<u8>, dna2: Seq<u8>)
    ensures
        crossover(selector, dna1, dna2).len() == 16,
        forall|i: int|
            0 <= i < 16 ==> crossover(selector, dna1, dna2)[i] == ((selector[i] & dna1[i]) | (
            !selector[i] & dna2[i])),
{
}

/// Computes the bitwise crossover of two 16-byte attribute vectors under a
/// 16-byte selector mask.
pub fn combine_dna(selector: &Vec<u8>, dna1: &Vec<u8>, dna2: &Vec<u8>) -> (r: Vec<u8>)
    requires
        selector@.len() == 16,
        dna1@.len() == 16,
        dna2@.len() == 16,
    ensures
        r@ == crossover(selector@, dna1@, dna2@),
{
    let mut r: Vec<u8> = Vec::new();
    let mut i: usize = 0;
    while i < 16
        invariant
            i <= 16,
            selector@.len() == 16,
            dna1@.len() == 16,
            dna2@.len() == 16,
            r@.len() == i,
            forall|j: int|
                0 <= j < i ==> r@[j] == ((selector@[j] & dna1@[j]) | (!selector@[j] & dna2@[j])),
        decreases 16 - i,
    {
        r.push((selector[i] & dna1[i]) | (!selector[i] & dna2[i]));
        i += 1;
    }
    proof {
        assert(r@ =~= crossover(selector@, dna1@, dna2@));
    }
    r
}

} // verus!
