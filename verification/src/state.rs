use vstd::prelude::*;

use crate::pubkey::Pubkey;

verus! {

/// The longest content pointer a post may carry, in characters.
pub const MAX_URL_LENGTH: usize = 100;

/// The persisted record: one per (topic, author) pair.
///
/// `author` and `topic_address` are write-once; the other three fields may be
/// overwritten by an update signed by the author.
pub struct Post {
    pub author: Pubkey,
    pub topic_address: Pubkey,
    pub post_file_url: String,
    /// True if the rated subject is a scam wallet.
    pub is_scam: bool,
    /// Rating in the closed range 1 to 5.
    pub post_rating: u8,
}

/// The mathematical shape of a persisted record.
pub struct PostView {
    pub author: Seq<u8>,
    pub topic_address: Seq<u8>,
    pub post_file_url: Seq<char>,
    pub is_scam: bool,
    pub post_rating: u8,
}

impl View for Post {
    type V = PostView;

    open spec fn view(&self) -> PostView {
        PostView {
            author: self.author@,
            topic_address: self.topic_address@,
            post_file_url: self.post_file_url@,
            is_scam: self.is_scam,
            post_rating: self.post_rating,
        }
    }
}

impl PostView {
    /// Field invariants that hold whenever a record exists.
    pub open spec fn wf(self) -> bool {
        &&& 1 <= self.post_rating <= 5
        &&& self.post_file_url.len() <= MAX_URL_LENGTH
    }
}

/// Whether a rating lies in the accepted closed range 1 to 5.
pub open spec fn spec_rating_ok(rating: u8) -> bool {
    1 <= rating <= 5
}

/// Validates the rating bound, identically for create and update.
pub fn rating_ok(rating: u8) -> (r: bool)
    ensures
        r == spec_rating_ok(rating),
{
    1 <= rating && rating <= 5
}

} // verus!
