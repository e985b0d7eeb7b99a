use vstd::prelude::*;

verus! {

/// The closed set of rejection reasons. Every caller-facing operation either
/// succeeds or returns exactly one of these; none carries a payload.
#[derive(Clone, Copy, PartialEq, Eq, Structural, Debug)]
pub enum ErrorCode {
    /// A record already exists at the derived address.
    PostAlreadyExists,
    /// The rating lies outside the closed range 1 to 5.
    InvalidPostRating,
    /// The metadata's parent collection differs from the configured identity.
    InvalidCollection,
    /// The metadata names no parent collection at all.
    MissingCollection,
    /// A configured identifier is malformed: a deployment fault, not a
    /// request fault.
    BadPubkey,
    /// The metadata describes a different token type than the holding.
    IncorrectMint,
    /// The token holding is empty.
    InvalidTokenAmount,
    /// The token holding belongs to someone other than the signer.
    InvalidTokenOwner,
    /// The requester is not the author of the existing record.
    InvalidPostAuthor,
    /// The metadata record is not owned by the trusted metadata program.
    NonMetaplexMetadataAccount,
}

impl ErrorCode {
    /// The human-readable message attached to each rejection reason.
    pub fn message(&self) -> (m: &'static str)
        ensures
            m@ == self.spec_message(),
    {
        match self {
            ErrorCode::PostAlreadyExists => "Post already exists",
            ErrorCode::InvalidPostRating => "Invalid post rating",
            ErrorCode::InvalidCollection => "Invalid collection",
            ErrorCode::MissingCollection => "Missing Collection",
            ErrorCode::BadPubkey => "Bad Pubkey",
            ErrorCode::IncorrectMint => "Bad mint",
            ErrorCode::InvalidTokenAmount => "Invalid token amount",
            ErrorCode::InvalidTokenOwner => "Invalid token owner",
            ErrorCode::InvalidPostAuthor => "Invalid post author",
            ErrorCode::NonMetaplexMetadataAccount => "Metadata account must be owned by metaplex",
        }
    }

    pub open spec fn spec_message(self) -> Seq<char> {
        match self {
            ErrorCode::PostAlreadyExists => "Post already exists"@,
            ErrorCode::InvalidPostRating => "Invalid post rating"@,
            ErrorCode::InvalidCollection => "Invalid collection"@,
            ErrorCode::MissingCollection => "Missing Collection"@,
            ErrorCode::BadPubkey => "Bad Pubkey"@,
            ErrorCode::IncorrectMint => "Bad mint"@,
            ErrorCode::InvalidTokenAmount => "Invalid token amount"@,
            ErrorCode::InvalidTokenOwner => "Invalid token owner"@,
            ErrorCode::InvalidPostAuthor => "Invalid post author"@,
            ErrorCode::NonMetaplexMetadataAccount => "Metadata account must be owned by metaplex"@,
        }
    }
}

} // verus!
