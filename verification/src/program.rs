use vstd::prelude::*;

use crate::errors::ErrorCode;
use crate::nft_validation::{
    is_signer_nft_member, parsed_metadata, spec_validate, MetadataAccount, TokenAccount,
    ValidatorConfig,
};
use crate::pda::{derive_post_address, derived_address};
use crate::pubkey::{pubkey_eq, Pubkey};
use crate::state::{Post, PostView, MAX_URL_LENGTH};
use crate::store::{spec_create, spec_delete, spec_update, PostStore};

verus! {

/// The accounts a create request names: the signing payer, the claimed token
/// holding and metadata record, and the topic being rated.
pub struct CreatePost {
    pub payer: Pubkey,
    pub token_account: TokenAccount,
    pub metadata: MetadataAccount,
    pub topic_address: Pubkey,
}

/// The accounts an update request names; membership is re-validated on
/// update exactly as on create.
pub struct UpdatePost {
    pub payer: Pubkey,
    pub token_account: TokenAccount,
    pub metadata: MetadataAccount,
    pub topic_address: Pubkey,
}

/// The accounts a delete request names; delete checks authorship only.
pub struct DeletePost {
    pub payer: Pubkey,
    pub topic_address: Pubkey,
}

/// The membership verdict on a request's claimed holding and metadata.
pub open spec fn spec_member(
    cfg: ValidatorConfig,
    payer: Pubkey,
    token_account: TokenAccount,
    metadata: MetadataAccount,
) -> Result<(), ErrorCode> {
    spec_validate(
        cfg,
        payer@,
        token_account.owner@,
        token_account.mint@,
        token_account.amount,
        metadata.owner_program@,
        parsed_metadata(metadata.data@),
    )
}

/// The deployed record store: a configured validator, the program identity
/// that addresses are derived under, and the slots themselves.
pub struct TransparencyProgram {
    pub program_id: Pubkey,
    pub config: ValidatorConfig,
    pub store: PostStore,
}

/// The outcome of a create request. In order: the canonical address is
/// derived (exhaustion of the bounded search is a deployment fault, reported
/// as `BadPubkey`); the address must be free; membership must hold; the
/// rating must be in bounds; then the record is written.
pub open spec fn spec_create_post(
    config: ValidatorConfig,
    program_id: Seq<u8>,
    m: Map<Seq<u8>, PostView>,
    accounts: CreatePost,
    post_file_url: Seq<char>,
    is_scam: bool,
    post_rating: u8,
) -> (Result<(), ErrorCode>, Map<Seq<u8>, PostView>) {
    match derived_address(accounts.topic_address@, accounts.payer@, program_id) {
        None => (Err(ErrorCode::BadPubkey), m),
        Some((address, bump)) => if m.contains_key(address) {
            (Err(ErrorCode::PostAlreadyExists), m)
        } else {
            match spec_member(config, accounts.payer, accounts.token_account, accounts.metadata) {
                Err(e) => (Err(e), m),
                Ok(()) => spec_create(
                    m,
                    address,
                    accounts.payer@,
                    accounts.topic_address@,
                    post_file_url,
                    is_scam,
                    post_rating,
                ),
            }
        },
    }
}

/// The outcome of an update request. `None` is a storage precondition
/// failure — the derivation was exhausted or no record exists at the derived
/// address — not a domain error. In order: authorship, membership, rating.
pub open spec fn spec_update_post(
    config: ValidatorConfig,
    program_id: Seq<u8>,
    m: Map<Seq<u8>, PostView>,
    accounts: UpdatePost,
    post_file_url: Seq<char>,
    is_scam: bool,
    post_rating: u8,
) -> (Option<Result<(), ErrorCode>>, Map<Seq<u8>, PostView>) {
    match derived_address(accounts.topic_address@, accounts.payer@, program_id) {
        None => (None, m),
        Some((address, bump)) => if !m.contains_key(address) {
            (None, m)
        } else if m[address].author != accounts.payer@ {
            (Some(Err(ErrorCode::InvalidPostAuthor)), m)
        } else {
            match spec_member(config, accounts.payer, accounts.token_account, accounts.metadata) {
                Err(e) => (Some(Err(e)), m),
                Ok(()) => {
                    let outcome = spec_update(
                        m,
                        address,
                        accounts.payer@,
                        post_file_url,
                        is_scam,
                        post_rating,
                    );
                    (Some(outcome.0), outcome.1)
                },
            }
        },
    }
}

/// The outcome of a delete request. `None` as for update; otherwise only
/// authorship is checked — delete never consults the validator.
pub open spec fn spec_delete_post(
    program_id: Seq<u8>,
    m: Map<Seq<u8>, PostView>,
    accounts: DeletePost,
) -> (Option<Result<(), ErrorCode>>, Map<Seq<u8>, PostView>) {
    match derived_address(accounts.topic_address@, accounts.payer@, program_id) {
        None => (None, m),
        Some((address, bump)) => if !m.contains_key(address) {
            (None, m)
        } else {
            let outcome = spec_delete(m, address, accounts.payer@);
            (Some(outcome.0), outcome.1)
        },
    }
}

impl TransparencyProgram {
    pub open spec fn wf(self) -> bool {
        self.store.wf()
    }

    /// A fresh deployment: configured identities, a program identity, and an
    /// empty store.
    pub fn new(program_id: Pubkey, config: ValidatorConfig) -> (r: TransparencyProgram)
        ensures
            r.wf(),
            r.store@ == Map::<Seq<u8>, PostView>::empty(),
            r.program_id == program_id,
            r.config == config,
    {
        TransparencyProgram { program_id, config, store: PostStore::new() }
    }

    /// Reads the record of `author` about `topic_address`, at its derived
    /// address, if one exists.
    pub fn get_post(&self, topic_address: &Pubkey, author: &Pubkey) -> (r: Option<&Post>)
        requires
            self.wf(),
        ensures
            match derived_address(topic_address@, author@, self.program_id@) {
                None => r is None,
                Some(d) => match r {
                    Some(post) => self.store@.contains_key(d.0) && post@ == self.store@[d.0],
                    None => !self.store@.contains_key(d.0),
                },
            },
    {
        match derive_post_address(topic_address, author, &self.program_id) {
            None => None,
            Some((address, _bump)) => self.store.get_post(&address),
        }
    }

    /// Publishes the signer's post about a topic, provided the signer proves
    /// membership in the configured collection and no post of theirs about
    /// that topic exists yet.
    pub fn create_post(
        &mut self,
        accounts: &CreatePost,
        post_file_url: String,
        is_scam: bool,
        post_rating: u8,
    ) -> (r: Result<(), ErrorCode>)
        requires
            old(self).wf(),
            post_file_url@.len() <= MAX_URL_LENGTH,
        ensures
            final(self).wf(),
            final(self).program_id == old(self).program_id,
            final(self).config == old(self).config,
            r == spec_create_post(
                old(self).config,
                old(self).program_id@,
                old(self).store@,
                *accounts,
                post_file_url@,
                is_scam,
                post_rating,
            ).0,
            final(self).store@ == spec_create_post(
                old(self).config,
                old(self).program_id@,
                old(self).store@,
                *accounts,
                post_file_url@,
                is_scam,
                post_rating,
            ).1,
    {
        let derived = derive_post_address(&accounts.topic_address, &accounts.payer, &self.program_id);
        let address = match derived {
            None => {
                return Err(ErrorCode::BadPubkey);
            },
            Some(d) => d.0,
        };
        match self.store.get_post(&address) {
            Some(_post) => {
                return Err(ErrorCode::PostAlreadyExists);
            },
            None => {},
        }
        match is_signer_nft_member(
            &self.config,
            &accounts.payer,
            &accounts.metadata,
            &accounts.token_account,
        ) {
            Err(e) => Err(e),
            Ok(()) => self.store.create(
                &address,
                &accounts.payer,
                &accounts.topic_address,
                post_file_url,
                is_scam,
                post_rating,
            ),
        }
    }

    /// Overwrites the mutable fields of the signer's post about a topic.
    /// Returns `None` where no such record exists; authorship is checked
    /// first, then membership is re-validated, then the rating bound.
    pub fn update_post(
        &mut self,
        accounts: &UpdatePost,
        post_file_url: String,
        is_scam: bool,
        post_rating: u8,
    ) -> (r: Option<Result<(), ErrorCode>>)
        requires
            old(self).wf(),
            post_file_url@.len() <= MAX_URL_LENGTH,
        ensures
            final(self).wf(),
            final(self).program_id == old(self).program_id,
            final(self).config == old(self).config,
            r == spec_update_post(
                old(self).config,
                old(self).program_id@,
                old(self).store@,
                *accounts,
                post_file_url@,
                is_scam,
                post_rating,
            ).0,
            final(self).store@ == spec_update_post(
                old(self).config,
                old(self).program_id@,
                old(self).store@,
                *accounts,
                post_file_url@,
                is_scam,
                post_rating,
            ).1,
    {
        let derived = derive_post_address(&accounts.topic_address, &accounts.payer, &self.program_id);
        let address = match derived {
            None => {
                return None;
            },
            Some(d) => d.0,
        };
        let author = match self.store.get_post(&address) {
            None => {
                return None;
            },
            Some(post) => post.author,
        };
        if !pubkey_eq(&author, &accounts.payer) {
            return Some(Err(ErrorCode::InvalidPostAuthor));
        }
        match is_signer_nft_member(
            &self.config,
            &accounts.payer,
            &accounts.metadata,
            &accounts.token_account,
        ) {
            Err(e) => Some(Err(e)),
            Ok(()) => Some(
                self.store.update(
                    &address,
                    &accounts.payer,
                    post_file_url,
                    is_scam,
                    post_rating,
                ),
            ),
        }
    }

    /// Destroys the signer's post about a topic and frees its storage.
    /// Returns `None` where no such record exists; only authorship gates it.
    pub fn delete_post(&mut self, accounts: &DeletePost) -> (r: Option<Result<(), ErrorCode>>)
        requires
            old(self).wf(),
        ensures
            final(self).wf(),
            final(self).program_id == old(self).program_id,
            final(self).config == old(self).config,
            r == spec_delete_post(old(self).program_id@, old(self).store@, *accounts).0,
            final(self).store@ == spec_delete_post(
                old(self).program_id@,
                old(self).store@,
                *accounts,
            ).1,
    {
        let derived = derive_post_address(&accounts.topic_address, &accounts.payer, &self.program_id);
        let address = match derived {
            None => {
                return None;
            },
            Some(d) => d.0,
        };
        match self.store.get_post(&address) {
            None => None,
            Some(_post) => Some(self.store.delete(&address, &accounts.payer)),
        }
    }
}

} // verus!
