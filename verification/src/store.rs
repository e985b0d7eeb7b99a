use vstd::prelude::*;

use crate::errors::ErrorCode;
use crate::pubkey::{pubkey_eq, Pubkey};
use crate::state::{rating_ok, spec_rating_ok, Post, PostView, MAX_URL_LENGTH};

verus! {

/// One occupied storage slot: a record and the address it was allocated at.
pub struct Slot {
    pub address: Pubkey,
    pub post: Post,
}

/// Owns the lifecycle of every post record: allocate on create, overwrite
/// the mutable fields on update, free on delete. Its mathematical content is
/// a map from storage address to record.
pub struct PostStore {
    pub slots: Vec<Slot>,
}

/// The map held by a sequence of occupied slots.
pub open spec fn slots_map(s: Seq<Slot>) -> Map<Seq<u8>, PostView>
    decreases s.len(),
{
    if s.len() == 0 {
        Map::empty()
    } else {
        slots_map(s.drop_last()).insert(s.last().address@, s.last().post@)
    }
}

/// Whether some slot is allocated at address `a`.
pub open spec fn has_addr(s: Seq<Slot>, a: Seq<u8>) -> bool {
    exists|i: int| 0 <= i < s.len() && s[i].address@ == a
}

/// No two slots share an address.
pub open spec fn distinct_addrs(s: Seq<Slot>) -> bool {
    forall|i: int, j: int| 0 <= i < j < s.len() ==> s[i].address@ != s[j].address@
}

/// The domain of the slot map is exactly the set of allocated addresses.
proof fn lemma_slots_map_dom(s: Seq<Slot>)
    ensures
        forall|a: Seq<u8>| #[trigger] slots_map(s).contains_key(a) <==> has_addr(s, a),
    decreases s.len(),
{
    if s.len() != 0 {
        lemma_slots_map_dom(s.drop_last());
        assert forall|a: Seq<u8>| #[trigger] slots_map(s).contains_key(a) implies has_addr(
            s,
            a,
        ) by {
            if a == s.last().address@ {
                assert(s[s.len() - 1].address@ == a);
            } else {
                assert(slots_map(s.drop_last()).contains_key(a));
                assert(has_addr(s.drop_last(), a));
                let i = choose|i: int|
                    0 <= i < s.drop_last().len() && s.drop_last()[i].address@ == a;
                assert(s.drop_last()[i] == s[i]);
                assert(s[i].address@ == a);
            }
        }
        assert forall|a: Seq<u8>| has_addr(s, a) implies #[trigger] slots_map(s).contains_key(
            a,
        ) by {
            let i = choose|i: int| 0 <= i < s.len() && s[i].address@ == a;
            if i < s.len() - 1 {
                assert(s.drop_last()[i] == s[i]);
                assert(s.drop_last()[i].address@ == a);
                assert(has_addr(s.drop_last(), a));
                assert(slots_map(s.drop_last()).contains_key(a));
                assert(slots_map(s).contains_key(a));
            } else {
                assert(a == s.last().address@);
                assert(slots_map(s).contains_key(a));
            }
        }
    }
}

/// With distinct addresses, the map reads back exactly the record held by
/// the slot at that address.
proof fn lemma_slots_map_index(s: Seq<Slot>, i: int)
    requires
        distinct_addrs(s),
        0 <= i < s.len(),
    ensures
        slots_map(s).contains_key(s[i].address@),
        slots_map(s)[s[i].address@] == s[i].post@,
    decreases s.len(),
{
    if i < s.len() - 1 {
        assert(s.drop_last()[i] == s[i]);
        lemma_slots_map_index(s.drop_last(), i);
        assert(s.last().address@ != s[i].address@);
    }
}

/// Overwriting one slot in place rewrites exactly that address's entry.
proof fn lemma_slots_map_update(s: Seq<Slot>, i: int, slot: Slot)
    requires
        distinct_addrs(s),
        0 <= i < s.len(),
        slot.address@ == s[i].address@,
    ensures
        slots_map(s.update(i, slot)) == slots_map(s).insert(slot.address@, slot.post@),
    decreases s.len(),
{
    let t = s.update(i, slot);
    if i == s.len() - 1 {
        assert(t.drop_last() =~= s.drop_last());
        assert(t.last() == slot);
        assert(slots_map(t) =~= slots_map(s).insert(slot.address@, slot.post@));
    } else {
        assert(t.drop_last() =~= s.drop_last().update(i, slot));
        assert(s.drop_last()[i] == s[i]);
        lemma_slots_map_update(s.drop_last(), i, slot);
        assert(t.last() == s.last());
        assert(s.last().address@ != slot.address@);
        assert(slots_map(t) =~= slots_map(s).insert(slot.address@, slot.post@));
    }
}

/// Freeing one slot removes exactly that address's entry.
proof fn lemma_slots_map_remove(s: Seq<Slot>, i: int)
    requires
        distinct_addrs(s),
        0 <= i < s.len(),
    ensures
        slots_map(s.remove(i)) == slots_map(s).remove(s[i].address@),
    decreases s.len(),
{
    let a = s[i].address@;
    if i == s.len() - 1 {
        assert(s.remove(i) =~= s.drop_last());
        lemma_slots_map_dom(s.drop_last());
        assert(!has_addr(s.drop_last(), a)) by {
            if has_addr(s.drop_last(), a) {
                let j = choose|j: int|
                    0 <= j < s.drop_last().len() && s.drop_last()[j].address@ == a;
                assert(s[j].address@ == s[i].address@);
            }
        }
        assert(slots_map(s.remove(i)) =~= slots_map(s).remove(a));
    } else {
        s.remove_ensures(i);
        assert(s.remove(i).drop_last() =~= s.drop_last().remove(i));
        assert(s.remove(i).last() == s.last());
        assert(s.drop_last()[i] == s[i]);
        lemma_slots_map_remove(s.drop_last(), i);
        assert(s.last().address@ != a);
        assert(slots_map(s.remove(i)) =~= slots_map(s).remove(a));
    }
}

/// The outcome of `create`: the address must be free and the rating in
/// bounds; then the record is allocated with exactly the given fields.
pub open spec fn spec_create(
    m: Map<Seq<u8>, PostView>,
    address: Seq<u8>,
    author: Seq<u8>,
    topic_address: Seq<u8>,
    post_file_url: Seq<char>,
    is_scam: bool,
    post_rating: u8,
) -> (Result<(), ErrorCode>, Map<Seq<u8>, PostView>) {
    if m.contains_key(address) {
        (Err(ErrorCode::PostAlreadyExists), m)
    } else if !spec_rating_ok(post_rating) {
        (Err(ErrorCode::InvalidPostRating), m)
    } else {
        (
            Ok(()),
            m.insert(
                address,
                PostView { author, topic_address, post_file_url, is_scam, post_rating },
            ),
        )
    }
}

/// The outcome of `update`: only the author may write, the rating is
/// re-validated, and only the three mutable fields change.
pub open spec fn spec_update(
    m: Map<Seq<u8>, PostView>,
    address: Seq<u8>,
    requester: Seq<u8>,
    post_file_url: Seq<char>,
    is_scam: bool,
    post_rating: u8,
) -> (Result<(), ErrorCode>, Map<Seq<u8>, PostView>)
    recommends
        m.contains_key(address),
{
    if m[address].author != requester {
        (Err(ErrorCode::InvalidPostAuthor), m)
    } else if !spec_rating_ok(post_rating) {
        (Err(ErrorCode::InvalidPostRating), m)
    } else {
        (
            Ok(()),
            m.insert(
                address,
                PostView {
                    author: m[address].author,
                    topic_address: m[address].topic_address,
                    post_file_url,
                    is_scam,
                    post_rating,
                },
            ),
        )
    }
}

/// The outcome of `delete`: only the author may free the slot; destruction
/// is unconditional and final.
pub open spec fn spec_delete(
    m: Map<Seq<u8>, PostView>,
    address: Seq<u8>,
    requester: Seq<u8>,
) -> (Result<(), ErrorCode>, Map<Seq<u8>, PostView>)
    recommends
        m.contains_key(address),
{
    if m[address].author != requester {
        (Err(ErrorCode::InvalidPostAuthor), m)
    } else {
        (Ok(()), m.remove(address))
    }
}

impl View for PostStore {
    type V = Map<Seq<u8>, PostView>;

    open spec fn view(&self) -> Map<Seq<u8>, PostView> {
        slots_map(self.slots@)
    }
}

impl PostStore {
    /// Addresses are unique and every held record meets its field
    /// invariants.
    pub open spec fn wf(self) -> bool {
        &&& distinct_addrs(self.slots@)
        &&& forall|i: int|
            0 <= i < self.slots@.len() ==> (#[trigger] self.slots@[i]).post@.wf()
    }

    /// An empty store: no address is occupied.
    pub fn new() -> (r: PostStore)
        ensures
            r.wf(),
            r@ == Map::<Seq<u8>, PostView>::empty(),
    {
        PostStore { slots: Vec::new() }
    }

    fn find_index(&self, address: &Pubkey) -> (r: Option<usize>)
        ensures
            match r {
                Some(i) => i < self.slots@.len() && self.slots@[i as int].address@ == address@,
                None => !has_addr(self.slots@, address@),
            },
    {
        let mut i: usize = 0;
        while i < self.slots.len()
            invariant
                0 <= i <= self.slots@.len(),
                forall|j: int| 0 <= j < i ==> self.slots@[j].address@ != address@,
            decreases self.slots@.len() - i,
        {
            if pubkey_eq(&self.slots[i].address, address) {
                return Some(i);
            }
            i = i + 1;
        }
        None
    }

    /// Reads the record at `address`, if one exists.
    pub fn get_post(&self, address: &Pubkey) -> (r: Option<&Post>)
        requires
            self.wf(),
        ensures
            match r {
                Some(p) => self@.contains_key(address@) && p@ == self@[address@],
                None => !self@.contains_key(address@),
            },
    {
        proof {
            lemma_slots_map_dom(self.slots@);
        }
        match self.find_index(address) {
            Some(i) => {
                proof {
                    lemma_slots_map_index(self.slots@, i as int);
                }
                Some(&self.slots[i].post)
            },
            None => None,
        }
    }

    /// Allocates and populates the record at `address`. Fails with
    /// `PostAlreadyExists` if the address is occupied and with
    /// `InvalidPostRating` if the rating is out of bounds; on failure the
    /// store is untouched.
    pub fn create(
        &mut self,
        address: &Pubkey,
        author: &Pubkey,
        topic_address: &Pubkey,
        post_file_url: String,
        is_scam: bool,
        post_rating: u8,
    ) -> (r: Result<(), ErrorCode>)
        requires
            old(self).wf(),
            post_file_url@.len() <= MAX_URL_LENGTH,
        ensures
            final(self).wf(),
            r == spec_create(
                old(self)@,
                address@,
                author@,
                topic_address@,
                post_file_url@,
                is_scam,
                post_rating,
            ).0,
            final(self)@ == spec_create(
                old(self)@,
                address@,
                author@,
                topic_address@,
                post_file_url@,
                is_scam,
                post_rating,
            ).1,
    {
        proof {
            lemma_slots_map_dom(self.slots@);
        }
        match self.find_index(address) {
            Some(i) => {
                proof {
                    lemma_slots_map_index(self.slots@, i as int);
                }
                Err(ErrorCode::PostAlreadyExists)
            },
            None => {
                if !rating_ok(post_rating) {
                    Err(ErrorCode::InvalidPostRating)
                } else {
                    let slot = Slot {
                        address: *address,
                        post: Post {
                            author: *author,
                            topic_address: *topic_address,
                            post_file_url,
                            is_scam,
                            post_rating,
                        },
                    };
                    proof {
                        let s0 = self.slots@;
                        assert forall|i: int, j: int|
                            0 <= i < j < s0.push(slot).len() implies s0.push(slot)[i].address@
                            != s0.push(slot)[j].address@ by {
                            if j < s0.len() {
                            } else {
                                assert(s0.push(slot)[i] == s0[i]);
                            }
                        }
                    }
                    self.slots.push(slot);
                    proof {
                        let s0 = old(self).slots@;
                        let s1 = self.slots@;
                        assert(s1.drop_last() =~= s0);
                        assert(s1.last() == slot);
                    }
                    Ok(())
                }
            },
        }
    }

    /// Overwrites the three mutable fields of the record at `address`.
    /// Only the record's author may write; the rating is re-validated; the
    /// author and topic are never revisited. On failure the store is
    /// untouched.
    pub fn update(
        &mut self,
        address: &Pubkey,
        requester: &Pubkey,
        post_file_url: String,
        is_scam: bool,
        post_rating: u8,
    ) -> (r: Result<(), ErrorCode>)
        requires
            old(self).wf(),
            old(self)@.contains_key(address@),
            post_file_url@.len() <= MAX_URL_LENGTH,
        ensures
            final(self).wf(),
            r == spec_update(
                old(self)@,
                address@,
                requester@,
                post_file_url@,
                is_scam,
                post_rating,
            ).0,
            final(self)@ == spec_update(
                old(self)@,
                address@,
                requester@,
                post_file_url@,
                is_scam,
                post_rating,
            ).1,
    {
        proof {
            lemma_slots_map_dom(self.slots@);
        }
        match self.find_index(address) {
            None => {
                proof {
                    assert(false);
                }
                Err(ErrorCode::InvalidPostAuthor)
            },
            Some(i) => {
                proof {
                    lemma_slots_map_index(self.slots@, i as int);
                }
                if !pubkey_eq(&self.slots[i].post.author, requester) {
                    return Err(ErrorCode::InvalidPostAuthor);
                }
                if !rating_ok(post_rating) {
                    return Err(ErrorCode::InvalidPostRating);
                }
                let author = self.slots[i].post.author;
                let topic_address = self.slots[i].post.topic_address;
                let slot = Slot {
                    address: *address,
                    post: Post { author, topic_address, post_file_url, is_scam, post_rating },
                };
                proof {
                    lemma_slots_map_update(self.slots@, i as int, slot);
                }
                self.slots[i] = slot;
                Ok(())
            },
        }
    }

    /// Destroys the record at `address` and frees its slot. Only the
    /// record's author may do so; on failure the store is untouched.
    pub fn delete(&mut self, address: &Pubkey, requester: &Pubkey) -> (r: Result<(), ErrorCode>)
        requires
            old(self).wf(),
            old(self)@.contains_key(address@),
        ensures
            final(self).wf(),
            r == spec_delete(old(self)@, address@, requester@).0,
            final(self)@ == spec_delete(old(self)@, address@, requester@).1,
    {
        proof {
            lemma_slots_map_dom(self.slots@);
        }
        match self.find_index(address) {
            None => {
                proof {
                    assert(false);
                }
                Err(ErrorCode::InvalidPostAuthor)
            },
            Some(i) => {
                proof {
                    lemma_slots_map_index(self.slots@, i as int);
                }
                if !pubkey_eq(&self.slots[i].post.author, requester) {
                    return Err(ErrorCode::InvalidPostAuthor);
                }
                proof {
                    lemma_slots_map_remove(self.slots@, i as int);
                    old(self).slots@.remove_ensures(i as int);
                }
                self.slots.remove(i);
                Ok(())
            },
        }
    }
}

} // verus!
