//! Plain value types that the grant logic works on: target-program
//! identifiers and the 256-bit allowance carried by a grant.

use vstd::prelude::*;

verus! {

/// Identifier of a target program: a 32-byte hash.
#[derive(Clone, Copy, Debug, PartialEq, Eq)]
pub struct ProgramId {
    pub bytes: [u8; 32],
}

impl View for ProgramId {
    type V = Seq<u8>;

    open spec fn view(&self) -> Seq<u8> {
        self.bytes@
    }
}

impl ProgramId {
    /// Builds an identifier from its 32 raw bytes.
    pub fn new(bytes: [u8; 32]) -> (r: ProgramId)
        ensures
            r@ == bytes@,
    {
        ProgramId { bytes }
    }
}

/// The unsigned value of a little-endian sequence of 64-bit words.
pub open spec fn words_value(words: Seq<u64>) -> nat
    decreases words.len(),
{
    if words.len() == 0 {
        0
    } else {
        (words.first() + 0x1_0000_0000_0000_0000 * words_value(words.drop_first())) as nat
    }
}

/// Maximum value a grant authorizes: an unsigned 256-bit integer, held as
/// four 64-bit words, least significant first.
#[derive(Clone, Copy, Debug, PartialEq, Eq)]
pub struct Allowance {
    pub words: [u64; 4],
}

impl View for Allowance {
    type V = Seq<u64>;

    open spec fn view(&self) -> Seq<u64> {
        self.words@
    }
}

impl Allowance {
    /// The mathematical value of this allowance.
    pub open spec fn value(&self) -> nat {
        words_value(self.words@)
    }

    /// An allowance equal to the given 64-bit value.
    pub fn from_u64(v: u64) -> (r: Allowance)
        ensures
            r.value() == v,
            r@ == seq![v, 0u64, 0u64, 0u64],
    {
        let r = Allowance { words: [v, 0, 0, 0] };
        proof {
            assert(r.words@ =~= seq![v, 0u64, 0u64, 0u64]);
            reveal_with_fuel(words_value, 5);
            assert(r.value() == v);
        }
        r
    }
}

} // verus!
