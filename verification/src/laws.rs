//! The library's laws: properties that relate several operations, proved
//! over the same spec functions that the operations' contracts use.

use vstd::prelude::*;

use crate::errors::ErrorCode;
use crate::nft_validation::{
    spec_membership_conditions, MetadataAccount, TokenAccount, ValidatorConfig,
};
use crate::pda::derived_address;
use crate::program::{
    spec_create_post, spec_delete_post, spec_member, spec_update_post, CreatePost, DeletePost,
    UpdatePost,
};
use crate::pubkey::Pubkey;
use crate::state::{spec_rating_ok, PostView};

verus! {

/// The validator's verdict is `Ok` exactly when all membership conditions
/// hold; there is no partial success.
pub proof fn lemma_member_ok_iff(
    config: ValidatorConfig,
    payer: Pubkey,
    token_account: TokenAccount,
    metadata: MetadataAccount,
)
    ensures
        spec_member(config, payer, token_account, metadata) is Ok <==> spec_membership_conditions(
            config,
            payer,
            token_account,
            metadata,
        ),
{
}

/// A create request succeeds exactly when the derived address is free,
/// every membership condition holds, and the rating lies in 1 to 5.
pub proof fn lemma_create_post_success_iff(
    config: ValidatorConfig,
    program_id: Seq<u8>,
    m: Map<Seq<u8>, PostView>,
    accounts: CreatePost,
    post_file_url: Seq<char>,
    is_scam: bool,
    post_rating: u8,
    d: (Seq<u8>, u8),
)
    requires
        derived_address(accounts.topic_address@, accounts.payer@, program_id) == Some(d),
    ensures
        spec_create_post(config, program_id, m, accounts, post_file_url, is_scam, post_rating).0
            is Ok <==> {
            &&& !m.contains_key(d.0)
            &&& spec_membership_conditions(
                config,
                accounts.payer,
                accounts.token_account,
                accounts.metadata,
            )
            &&& spec_rating_ok(post_rating)
        },
{
    lemma_member_ok_iff(config, accounts.payer, accounts.token_account, accounts.metadata);
}

/// After a successful create, the record at the derived address holds
/// exactly the author, topic, url, scam flag and rating that were given.
pub proof fn lemma_create_post_reads_back(
    config: ValidatorConfig,
    program_id: Seq<u8>,
    m: Map<Seq<u8>, PostView>,
    accounts: CreatePost,
    post_file_url: Seq<char>,
    is_scam: bool,
    post_rating: u8,
    d: (Seq<u8>, u8),
)
    requires
        derived_address(accounts.topic_address@, accounts.payer@, program_id) == Some(d),
        spec_create_post(config, program_id, m, accounts, post_file_url, is_scam, post_rating).0
            is Ok,
    ensures
        spec_create_post(
            config,
            program_id,
            m,
            accounts,
            post_file_url,
            is_scam,
            post_rating,
        ).1.contains_key(d.0),
        spec_create_post(config, program_id, m, accounts, post_file_url, is_scam, post_rating).1[
            d.0
        ] == (PostView {
            author: accounts.payer@,
            topic_address: accounts.topic_address@,
            post_file_url,
            is_scam,
            post_rating,
        }),
{
}

/// An update request from a signer who is not the record's author always
/// fails with the author-mismatch error and leaves the store untouched.
pub proof fn lemma_update_post_non_author(
    config: ValidatorConfig,
    program_id: Seq<u8>,
    m: Map<Seq<u8>, PostView>,
    accounts: UpdatePost,
    post_file_url: Seq<char>,
    is_scam: bool,
    post_rating: u8,
    d: (Seq<u8>, u8),
)
    requires
        derived_address(accounts.topic_address@, accounts.payer@, program_id) == Some(d),
        m.contains_key(d.0),
        m[d.0].author != accounts.payer@,
    ensures
        spec_update_post(config, program_id, m, accounts, post_file_url, is_scam, post_rating).0
            == Some(Err::<(), ErrorCode>(ErrorCode::InvalidPostAuthor)),
        spec_update_post(config, program_id, m, accounts, post_file_url, is_scam, post_rating).1
            == m,
{
}

/// Deleting a post and re-creating one for the same (topic, author) pair
/// succeeds, and the new record carries only the new values: nothing of the
/// deleted record survives.
pub proof fn lemma_delete_then_create(
    config: ValidatorConfig,
    program_id: Seq<u8>,
    m: Map<Seq<u8>, PostView>,
    del: DeletePost,
    accounts: CreatePost,
    post_file_url: Seq<char>,
    is_scam: bool,
    post_rating: u8,
    d: (Seq<u8>, u8),
)
    requires
        del.payer@ == accounts.payer@,
        del.topic_address@ == accounts.topic_address@,
        derived_address(accounts.topic_address@, accounts.payer@, program_id) == Some(d),
        m.contains_key(d.0),
        m[d.0].author == del.payer@,
        spec_membership_conditions(
            config,
            accounts.payer,
            accounts.token_account,
            accounts.metadata,
        ),
        spec_rating_ok(post_rating),
    ensures
        spec_delete_post(program_id, m, del).0 == Some(Ok::<(), ErrorCode>(())),
        ({
            let m1 = spec_delete_post(program_id, m, del).1;
            let after = spec_create_post(
                config,
                program_id,
                m1,
                accounts,
                post_file_url,
                is_scam,
                post_rating,
            );
            &&& after.0 is Ok
            &&& after.1[d.0] == (PostView {
                author: accounts.payer@,
                topic_address: accounts.topic_address@,
                post_file_url,
                is_scam,
                post_rating,
            })
        }),
{
    lemma_member_ok_iff(config, accounts.payer, accounts.token_account, accounts.metadata);
}

/// The rating boundary for create: given a free address and valid
/// membership, ratings 0 and 6 are rejected as invalid and ratings 1 and 5
/// are accepted.
pub proof fn lemma_rating_boundary_create(
    config: ValidatorConfig,
    program_id: Seq<u8>,
    m: Map<Seq<u8>, PostView>,
    accounts: CreatePost,
    post_file_url: Seq<char>,
    is_scam: bool,
    d: (Seq<u8>, u8),
)
    requires
        derived_address(accounts.topic_address@, accounts.payer@, program_id) == Some(d),
        !m.contains_key(d.0),
        spec_membership_conditions(
            config,
            accounts.payer,
            accounts.token_account,
            accounts.metadata,
        ),
    ensures
        spec_create_post(config, program_id, m, accounts, post_file_url, is_scam, 0).0 == Err::<
            (),
            ErrorCode,
        >(ErrorCode::InvalidPostRating),
        spec_create_post(config, program_id, m, accounts, post_file_url, is_scam, 6).0 == Err::<
            (),
            ErrorCode,
        >(ErrorCode::InvalidPostRating),
        spec_create_post(config, program_id, m, accounts, post_file_url, is_scam, 1).0 is Ok,
        spec_create_post(config, program_id, m, accounts, post_file_url, is_scam, 5).0 is Ok,
{
    lemma_member_ok_iff(config, accounts.payer, accounts.token_account, accounts.metadata);
}

/// The rating boundary for update, identical to create: from the record's
/// author with valid membership, ratings 0 and 6 are rejected and ratings 1
/// and 5 are accepted.
pub proof fn lemma_rating_boundary_update(
    config: ValidatorConfig,
    program_id: Seq<u8>,
    m: Map<Seq<u8>, PostView>,
    accounts: UpdatePost,
    post_file_url: Seq<char>,
    is_scam: bool,
    d: (Seq<u8>, u8),
)
    requires
        derived_address(accounts.topic_address@, accounts.payer@, program_id) == Some(d),
        m.contains_key(d.0),
        m[d.0].author == accounts.payer@,
        spec_membership_conditions(
            config,
            accounts.payer,
            accounts.token_account,
            accounts.metadata,
        ),
    ensures
        spec_update_post(config, program_id, m, accounts, post_file_url, is_scam, 0).0 == Some(
            Err::<(), ErrorCode>(ErrorCode::InvalidPostRating),
        ),
        spec_update_post(config, program_id, m, accounts, post_file_url, is_scam, 6).0 == Some(
            Err::<(), ErrorCode>(ErrorCode::InvalidPostRating),
        ),
        spec_update_post(config, program_id, m, accounts, post_file_url, is_scam, 1).0 == Some(
            Ok::<(), ErrorCode>(()),
        ),
        spec_update_post(config, program_id, m, accounts, post_file_url, is_scam, 5).0 == Some(
            Ok::<(), ErrorCode>(()),
        ),
{
    lemma_member_ok_iff(config, accounts.payer, accounts.token_account, accounts.metadata);
}

/// Creating twice for the same (topic, author) pair fails the second time
/// with `PostAlreadyExists` and never silently overwrites the first record.
pub proof fn lemma_create_twice_fails(
    config: ValidatorConfig,
    program_id: Seq<u8>,
    m: Map<Seq<u8>, PostView>,
    first: CreatePost,
    second: CreatePost,
    first_url: Seq<char>,
    first_scam: bool,
    first_rating: u8,
    second_url: Seq<char>,
    second_scam: bool,
    second_rating: u8,
    d: (Seq<u8>, u8),
)
    requires
        second.payer@ == first.payer@,
        second.topic_address@ == first.topic_address@,
        derived_address(first.topic_address@, first.payer@, program_id) == Some(d),
        spec_create_post(config, program_id, m, first, first_url, first_scam, first_rating).0
            is Ok,
    ensures
        ({
            let m1 = spec_create_post(
                config,
                program_id,
                m,
                first,
                first_url,
                first_scam,
                first_rating,
            ).1;
            let again = spec_create_post(
                config,
                program_id,
                m1,
                second,
                second_url,
                second_scam,
                second_rating,
            );
            &&& again.0 == Err::<(), ErrorCode>(ErrorCode::PostAlreadyExists)
            &&& again.1 == m1
        }),
{
}

} // verus!
