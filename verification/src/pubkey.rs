use vstd::prelude::*;

verus! {

/// A fixed-width public identifier, as used for signers, authors, topics,
/// token mints and program ids. Byte-for-byte equality is the only relation
/// the library uses between identifiers.
#[derive(Clone, Copy, PartialEq, Eq, Debug)]
pub struct Pubkey {
    pub bytes: [u8; 32],
}

impl View for Pubkey {
    type V = Seq<u8>;

    open spec fn view(&self) -> Seq<u8> {
        self.bytes@
    }
}

impl Pubkey {
    pub fn new(bytes: [u8; 32]) -> (r: Pubkey)
        ensures
            r@ == bytes@,
    {
        Pubkey { bytes }
    }

    /// Reads an identifier from raw bytes; anything but exactly 32 bytes is
    /// malformed.
    pub fn from_bytes(v: &Vec<u8>) -> (r: Option<Pubkey>)
        ensures
            match r {
                Some(p) => v@.len() == 32 && p@ == v@,
                None => v@.len() != 32,
            },
    {
        if v.len() != 32 {
            return None;
        }
        let mut bytes: [u8; 32] = [0; 32];
        let mut i: usize = 0;
        while i < 32
            invariant
                0 <= i <= 32,
                v@.len() == 32,
                forall|j: int| 0 <= j < i ==> bytes@[j] == v@[j],
            decreases 32 - i,
        {
            bytes[i] = v[i];
            i = i + 1;
        }
        let p = Pubkey { bytes };
        proof {
            assert(p@ =~= v@);
        }
        Some(p)
    }
}

/// Byte-for-byte equality of two identifiers, the sole authorization relation.
pub fn pubkey_eq(a: &Pubkey, b: &Pubkey) -> (r: bool)
    ensures
        r == (a@ == b@),
{
    let mut i: usize = 0;
    while i < 32
        invariant
            0 <= i <= 32,
            forall|j: int| 0 <= j < i ==> a.bytes@[j] == b.bytes@[j],
        decreases 32 - i,
    {
        if a.bytes[i] != b.bytes[i] {
            assert(a@[i as int] != b@[i as int]);
            return false;
        }
        i = i + 1;
    }
    proof {
        assert(a@ =~= b@);
    }
    true
}

} // verus!
