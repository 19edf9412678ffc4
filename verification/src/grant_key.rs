//! Derivation of the storage key under which a target program's grant is
//! recorded: the fixed prefix `"_grants_"` followed by the lowercase hex
//! rendering of the 32 identifier bytes.  The derivation is injective, so
//! uniqueness of target-program identifiers carries over to the key space.

use vstd::prelude::*;

use crate::values::ProgramId;

verus! {

/// The lowercase hex character for a value below 16.
pub open spec fn hex_digit(n: u8) -> char {
    if n == 0 {
        '0'
    } else if n == 1 {
        '1'
    } else if n == 2 {
        '2'
    } else if n == 3 {
        '3'
    } else if n == 4 {
        '4'
    } else if n == 5 {
        '5'
    } else if n == 6 {
        '6'
    } else if n == 7 {
        '7'
    } else if n == 8 {
        '8'
    } else if n == 9 {
        '9'
    } else if n == 10 {
        'a'
    } else if n == 11 {
        'b'
    } else if n == 12 {
        'c'
    } else if n == 13 {
        'd'
    } else if n == 14 {
        'e'
    } else {
        'f'
    }
}

/// Lowercase hex rendering of a byte sequence, two characters per byte,
/// high nibble first.
pub open spec fn hex_of(bytes: Seq<u8>) -> Seq<char>
    decreases bytes.len(),
{
    if bytes.len() == 0 {
        Seq::empty()
    } else {
        hex_of(bytes.drop_last()) + seq![
            hex_digit((bytes.last() / 16) as u8),
            hex_digit((bytes.last() % 16) as u8),
        ]
    }
}

/// The storage key that records a grant for the given target identifier.
pub open spec fn grant_key_spec(id: Seq<u8>) -> Seq<char> {
    "_grants_"@ + hex_of(id)
}

fn hex_digit_str(n: u8) -> (r: &'static str)
    requires
        n < 16,
    ensures
        r@ =~= seq![hex_digit(n)],
{
    proof {
        reveal_strlit("0");
        reveal_strlit("1");
        reveal_strlit("2");
        reveal_strlit("3");
        reveal_strlit("4");
        reveal_strlit("5");
        reveal_strlit("6");
        reveal_strlit("7");
        reveal_strlit("8");
        reveal_strlit("9");
        reveal_strlit("a");
        reveal_strlit("b");
        reveal_strlit("c");
        reveal_strlit("d");
        reveal_strlit("e");
        reveal_strlit("f");
    }
    match n {
        0 => "0",
        1 => "1",
        2 => "2",
        3 => "3",
        4 => "4",
        5 => "5",
        6 => "6",
        7 => "7",
        8 => "8",
        9 => "9",
        10 => "a",
        11 => "b",
        12 => "c",
        13 => "d",
        14 => "e",
        _ => "f",
    }
}

/// Builds the storage key for a target program's grant.
pub fn grant_key(id: &ProgramId) -> (r: String)
    ensures
        r@ == grant_key_spec(id@),
{
    let mut s = String::from_str("_grants_");
    proof {
        assert(s@ + hex_of(id@.subrange(0, 0)) =~= s@);
    }
    let mut i: usize = 0;
    while i < 32
        invariant
            i <= 32,
            s@ == "_grants_"@ + hex_of(id@.subrange(0, i as int)),
        decreases 32 - i,
    {
        let b = id.bytes[i];
        s.append(hex_digit_str(b / 16));
        s.append(hex_digit_str(b % 16));
        proof {
            let prev = id@.subrange(0, i as int);
            let cur = id@.subrange(0, i + 1 as int);
            assert(cur.drop_last() =~= prev);
            assert(cur.last() == id@[i as int]);
            assert(s@ =~= "_grants_"@ + hex_of(cur));
        }
        i = i + 1;
    }
    proof {
        assert(id@.subrange(0, 32) =~= id@);
    }
    s
}

proof fn lemma_hex_of_len(bytes: Seq<u8>)
    ensures
        hex_of(bytes).len() == 2 * bytes.len(),
    decreases bytes.len(),
{
    if bytes.len() > 0 {
        lemma_hex_of_len(bytes.drop_last());
    }
}

proof fn lemma_hex_of_injective(a: Seq<u8>, b: Seq<u8>)
    requires
        a.len() == b.len(),
        hex_of(a) == hex_of(b),
    ensures
        a == b,
    decreases a.len(),
{
    if a.len() == 0 {
        assert(a =~= b);
    } else {
        let n = a.len() as int;
        lemma_hex_of_len(a.drop_last());
        lemma_hex_of_len(b.drop_last());
        let ha = hex_of(a.drop_last());
        let hb = hex_of(b.drop_last());
        assert(hex_of(a)[2 * n - 2] == hex_digit((a.last() / 16) as u8));
        assert(hex_of(a)[2 * n - 1] == hex_digit((a.last() % 16) as u8));
        assert(hex_of(b)[2 * n - 2] == hex_digit((b.last() / 16) as u8));
        assert(hex_of(b)[2 * n - 1] == hex_digit((b.last() % 16) as u8));
        assert(a.last() / 16 == b.last() / 16);
        assert(a.last() % 16 == b.last() % 16);
        assert(a.last() == b.last());
        assert(ha =~= hb) by {
            assert forall|i: int| 0 <= i < 2 * n - 2 implies ha[i] == hb[i] by {
                assert(hex_of(a)[i] == ha[i]);
                assert(hex_of(b)[i] == hb[i]);
            }
        }
        lemma_hex_of_injective(a.drop_last(), b.drop_last());
        assert(a =~= b) by {
            assert forall|i: int| 0 <= i < n implies a[i] == b[i] by {
                if i < n - 1 {
                    assert(a.drop_last()[i] == a[i]);
                    assert(b.drop_last()[i] == b[i]);
                } else {
                    assert(a[n - 1] == a.last());
                    assert(b[n - 1] == b.last());
                }
            }
        }
    }
}

/// Key-space uniqueness: distinct target identifiers of equal length never
/// share a grant key, because the key derivation is injective.
pub proof fn lemma_grant_key_injective(a: Seq<u8>, b: Seq<u8>)
    requires
        a.len() == b.len(),
        grant_key_spec(a) == grant_key_spec(b),
    ensures
        a == b,
{
    lemma_hex_of_len(a);
    lemma_hex_of_len(b);
    let p = "_grants_"@;
    assert(hex_of(a) =~= hex_of(b)) by {
        assert forall|i: int| 0 <= i < hex_of(a).len() implies hex_of(a)[i] == hex_of(b)[i] by {
            assert(grant_key_spec(a)[p.len() + i] == hex_of(a)[i]);
            assert(grant_key_spec(b)[p.len() + i] == hex_of(b)[i]);
        }
    }
    lemma_hex_of_injective(a, b);
}

} // verus!
