use vstd::prelude::*;

verus! {

/// A kitty is identified by its index in the pallet storage; what it carries
/// is its 16 bytes of DNA.
#[derive(Clone, Copy, PartialEq, Eq, Debug)]
pub struct Kitty(pub [u8; 16]);

/// Mixes one byte of DNA from two parents: every bit set in `selector` is taken
/// from `one`, every clear bit from `two`.
pub open spec fn spec_combie_dna(one: u8, two: u8, selector: u8) -> u8 {
    (selector & one) | (!selector & two)
}

/// Mixes one byte of DNA from two parents under a selector byte.
pub fn combie_dna(one: u8, two: u8, selector: u8) -> (r: u8)
    ensures
        r == spec_combie_dna(one, two, selector),
{
    (selector & one) | (!selector & two)
}

/// The DNA of a kitty bred from parents with DNA `dna1` and `dna2`: byte by
/// byte, the mix of the two parents under the selector byte.
pub open spec fn spec_breed_dna(dna1: Seq<u8>, dna2: Seq<u8>, selector: Seq<u8>) -> Seq<u8> {
    Seq::new(16, |i: int| spec_combie_dna(dna1[i], dna2[i], selector[i]))
}

/// Combines the DNA of two parents, byte by byte, under a selector.
pub fn breed_dna(dna1: [u8; 16], dna2: [u8; 16], selector: [u8; 16]) -> (dna: [u8; 16])
    ensures
        dna@ == spec_breed_dna(dna1@, dna2@, selector@),
        forall|i: int| 0 <= i < 16 ==> #[trigger] dna@[i] == spec_combie_dna(dna1@[i], dna2@[i], selector@[i]),
{
    let mut dna: [u8; 16] = [0u8; 16];
    for i in 0..16
        invariant
            dna@.len() == 16,
            forall|j: int| 0 <= j < i ==> dna@[j] == spec_combie_dna(dna1@[j], dna2@[j], selector@[j]),
    {
        dna[i] = combie_dna(dna1[i], dna2[i], selector[i]);
    }
    assert(dna@ =~= spec_breed_dna(dna1@, dna2@, selector@));
    dna
}

/// Each bit of a mixed byte comes from the first parent where the selector
/// bit is set and from the second parent where it is clear.
pub proof fn lemma_combie_dna_bitwise(one: u8, two: u8, selector: u8, bit: u8)
    requires
        bit < 8,
    ensures
        (spec_combie_dna(one, two, selector) >> bit) & 1 == if (selector >> bit) & 1 == 1 {
            (one >> bit) & 1
        } else {
            (two >> bit) & 1
        },
{
    assert((((selector & one) | (!selector & two)) >> bit) & 1 == if (selector >> bit) & 1 == 1 {
        (one >> bit) & 1
    } else {
        (two >> bit) & 1
    }) by (bit_vector)
        requires
            bit < 8,
    ;
}

/// Mixing a byte with itself gives it back, whatever the selector: two
/// parents with the same DNA have a child with that DNA.
pub proof fn lemma_combie_dna_same_parents(x: u8, selector: u8)
    ensures
        spec_combie_dna(x, x, selector) == x,
{
    assert((selector & x) | (!selector & x) == x) by (bit_vector);
}

/// A selector with every bit set takes the whole byte from the first parent;
/// one with every bit clear takes it from the second.
pub proof fn lemma_combie_dna_full_selectors(one: u8, two: u8)
    ensures
        spec_combie_dna(one, two, 0xff) == one,
        spec_combie_dna(one, two, 0) == two,
{
    assert((0xffu8 & one) | (!0xffu8 & two) == one) by (bit_vector);
    assert((0u8 & one) | (!0u8 & two) == two) by (bit_vector);
}

/// Swapping the parents and complementing the selector gives the same byte.
pub proof fn lemma_combie_dna_swap(one: u8, two: u8, selector: u8)
    ensures
        spec_combie_dna(two, one, !selector) == spec_combie_dna(one, two, selector),
{
    assert(((!selector) & two) | (!(!selector) & one) == (selector & one) | (!selector & two))
        by (bit_vector);
}

/// Breeding two kitties with the same DNA gives a kitty with that DNA.
pub proof fn lemma_breed_same_dna(dna: Seq<u8>, selector: Seq<u8>)
    requires
        dna.len() == 16,
    ensures
        spec_breed_dna(dna, dna, selector) == dna,
{
    assert forall|i: int| 0 <= i < 16 implies #[trigger] spec_breed_dna(dna, dna, selector)[i] == dna[i] by {
        lemma_combie_dna_same_parents(dna[i], selector[i]);
    }
    assert(spec_breed_dna(dna, dna, selector) =~= dna);
}

} // verus!
