use vstd::prelude::*;

use crate::pubkey::Pubkey;

verus! {

/// The address and bump proof that the runtime's program-derived-address
/// search returns for the given seeds and program id, or `None` in the
/// practically unreachable case that the bounded search is exhausted.
pub uninterp spec fn pda_of(prefix: Seq<u8>, topic: Seq<u8>, author: Seq<u8>, program_id: Seq<
    u8,
>) -> Option<(Seq<u8>, u8)>;

/// Relies on anchor_lang's `Pubkey::try_find_program_address`: the search is
/// a pure function of the seed bytes and the program id, and `None` is
/// returned exactly when no bump seed yields a valid address.
#[verifier::external_body]
fn try_find_program_address(
    prefix: &Vec<u8>,
    topic: &Pubkey,
    author: &Pubkey,
    program_id: &Pubkey,
) -> (r: Option<(Pubkey, u8)>)
    ensures
        match r {
            Some(p) => pda_of(prefix@, topic@, author@, program_id@) == Some((p.0@, p.1)),
            None => pda_of(prefix@, topic@, author@, program_id@) is None,
        },
{
    let pid = anchor_lang::prelude::Pubkey::new_from_array(program_id.bytes);
    let found = anchor_lang::prelude::Pubkey::try_find_program_address(
        &[prefix.as_slice(), &topic.bytes, &author.bytes],
        &pid,
    );
    match found {
        Some((address, bump)) => Some((Pubkey { bytes: address.to_bytes() }, bump)),
        None => None,
    }
}

/// The seed prefix that namespaces post records: the ASCII bytes of "post".
pub open spec fn post_seed() -> Seq<u8> {
    seq![112u8, 111u8, 115u8, 116u8]
}

fn post_seed_bytes() -> (r: Vec<u8>)
    ensures
        r@ == post_seed(),
{
    let mut v: Vec<u8> = Vec::new();
    v.push(112);
    v.push(111);
    v.push(115);
    v.push(116);
    proof {
        assert(v@ =~= post_seed());
    }
    v
}

/// The canonical storage address of the post of `author` about `topic`,
/// under `program_id`, with its bump proof.
pub open spec fn derived_address(topic: Seq<u8>, author: Seq<u8>, program_id: Seq<u8>) -> Option<
    (Seq<u8>, u8),
> {
    pda_of(post_seed(), topic, author, program_id)
}

/// Maps a (topic, author) pair to the unique, deterministic storage address
/// of its post, plus the bump proof of the derivation. Deterministic by
/// construction: the result is a function of the three identifiers alone.
/// `None` — the bounded search space held no valid address — is practically
/// unreachable and is treated as fatal by the callers.
pub fn derive_post_address(topic: &Pubkey, author: &Pubkey, program_id: &Pubkey) -> (r: Option<
    (Pubkey, u8),
>)
    ensures
        match r {
            Some(p) => derived_address(topic@, author@, program_id@) == Some((p.0@, p.1)),
            None => derived_address(topic@, author@, program_id@) is None,
        },
{
    let prefix = post_seed_bytes();
    try_find_program_address(&prefix, topic, author, program_id)
}

} // verus!
