use vstd::prelude::*;

use crate::errors::ErrorCode;
use crate::pubkey::{pubkey_eq, Pubkey};

verus! {

/// A claimed token holding, read for the library by its caller: the owning
/// signer, the token type held, and the quantity held.
pub struct TokenAccount {
    pub owner: Pubkey,
    pub mint: Pubkey,
    pub amount: u64,
}

/// A claimed metadata record, as it sits in storage: the program that owns
/// the account — authenticity means the trusted metadata program does — and
/// the raw record bytes.
pub struct MetadataAccount {
    pub owner_program: Pubkey,
    pub data: Vec<u8>,
}

/// Process-wide configuration of the validator: the trusted metadata
/// program's identity and the collection identity that gates membership.
#[derive(Clone, Copy, Debug)]
pub struct ValidatorConfig {
    pub metadata_authority: Pubkey,
    pub collection_mint: Pubkey,
}

impl ValidatorConfig {
    /// Reads the two configured identities from raw bytes. A malformed
    /// identifier is a deployment fault and is reported as `BadPubkey`.
    pub fn new(metadata_authority: &Vec<u8>, collection_mint: &Vec<u8>) -> (r: Result<
        ValidatorConfig,
        ErrorCode,
    >)
        ensures
            match r {
                Ok(c) => {
                    &&& metadata_authority@.len() == 32
                    &&& collection_mint@.len() == 32
                    &&& c.metadata_authority@ == metadata_authority@
                    &&& c.collection_mint@ == collection_mint@
                },
                Err(e) => {
                    &&& e == ErrorCode::BadPubkey
                    &&& (metadata_authority@.len() != 32 || collection_mint@.len() != 32)
                },
            },
    {
        let authority = match Pubkey::from_bytes(metadata_authority) {
            Some(p) => p,
            None => {
                return Err(ErrorCode::BadPubkey);
            },
        };
        let collection = match Pubkey::from_bytes(collection_mint) {
            Some(p) => p,
            None => {
                return Err(ErrorCode::BadPubkey);
            },
        };
        Ok(ValidatorConfig { metadata_authority: authority, collection_mint: collection })
    }
}

/// What the trusted metadata program's decoder reads out of a metadata
/// record's bytes — the token type it describes and its optional parent
/// collection — or `None` where the bytes are not a well-formed record.
pub uninterp spec fn parsed_metadata(data: Seq<u8>) -> Option<(Seq<u8>, Option<Seq<u8>>)>;

/// The shape of a decoded record over plain values.
pub open spec fn spec_parsed_view(p: (Pubkey, Option<Pubkey>)) -> (Seq<u8>, Option<Seq<u8>>) {
    (
        p.0@,
        match p.1 {
            Some(c) => Some(c@),
            None => None,
        },
    )
}

/// Relies on mpl_token_metadata's `Metadata::safe_deserialize`: decoding is a
/// pure function of the record bytes; on success the described mint and the
/// optional parent-collection key are fields of the decoded record.
#[verifier::external_body]
fn deserialize_metadata(data: &Vec<u8>) -> (r: Option<(Pubkey, Option<Pubkey>)>)
    ensures
        match r {
            Some(p) => parsed_metadata(data@) == Some(spec_parsed_view(p)),
            None => parsed_metadata(data@) is None,
        },
{
    match mpl_token_metadata::accounts::Metadata::safe_deserialize(data.as_slice()) {
        Ok(m) => Some(
            (
                Pubkey { bytes: m.mint.to_bytes() },
                match m.collection {
                    Some(c) => Some(Pubkey { bytes: c.key.to_bytes() }),
                    None => None,
                },
            ),
        ),
        Err(_) => None,
    }
}

/// The verdict on a decoded metadata record: it must describe the same token
/// type as the holding, name a parent collection, and that collection must be
/// the configured identity.
pub open spec fn spec_check_parsed(
    cfg: ValidatorConfig,
    token_mint: Seq<u8>,
    parsed: Option<(Seq<u8>, Option<Seq<u8>>)>,
) -> Result<(), ErrorCode> {
    match parsed {
        None => Err(ErrorCode::NonMetaplexMetadataAccount),
        Some((mint, collection)) => if mint != token_mint {
            Err(ErrorCode::IncorrectMint)
        } else {
            match collection {
                None => Err(ErrorCode::MissingCollection),
                Some(c) => if c != cfg.collection_mint@ {
                    Err(ErrorCode::InvalidCollection)
                } else {
                    Ok(())
                },
            }
        },
    }
}

/// Judges a decoded metadata record against the token holding's mint and the
/// configured collection identity. Takes the decoder's result as an
/// argument, so its verdict is exact for every value of it.
pub fn check_parsed_membership(
    cfg: &ValidatorConfig,
    token_mint: &Pubkey,
    parsed: &Option<(Pubkey, Option<Pubkey>)>,
) -> (r: Result<(), ErrorCode>)
    ensures
        r == spec_check_parsed(
            *cfg,
            token_mint@,
            match *parsed {
                Some(p) => Some(spec_parsed_view(p)),
                None => None,
            },
        ),
{
    match parsed {
        None => Err(ErrorCode::NonMetaplexMetadataAccount),
        Some((mint, collection)) => {
            if !pubkey_eq(mint, token_mint) {
                Err(ErrorCode::IncorrectMint)
            } else {
                match collection {
                    None => Err(ErrorCode::MissingCollection),
                    Some(c) => {
                        if !pubkey_eq(c, &cfg.collection_mint) {
                            Err(ErrorCode::InvalidCollection)
                        } else {
                            Ok(())
                        }
                    },
                }
            }
        },
    }
}

/// The full membership verdict, in short-circuit order: the holding must
/// belong to the signer and be non-empty; the metadata record must be owned
/// by the trusted metadata program and decode; and the decoded record must
/// pass `spec_check_parsed`.
pub open spec fn spec_validate(
    cfg: ValidatorConfig,
    signer: Seq<u8>,
    token_owner: Seq<u8>,
    token_mint: Seq<u8>,
    token_amount: u64,
    metadata_owner: Seq<u8>,
    parsed: Option<(Seq<u8>, Option<Seq<u8>>)>,
) -> Result<(), ErrorCode> {
    if token_owner != signer {
        Err(ErrorCode::InvalidTokenOwner)
    } else if token_amount < 1 {
        Err(ErrorCode::InvalidTokenAmount)
    } else if metadata_owner != cfg.metadata_authority@ {
        Err(ErrorCode::NonMetaplexMetadataAccount)
    } else {
        spec_check_parsed(cfg, token_mint, parsed)
    }
}

/// The membership conditions stated positively: the holding belongs to the
/// signer and is non-empty; the metadata record is owned by the trusted
/// metadata program and decodes; it describes the holding's token type; and
/// it names the configured collection as its parent.
pub open spec fn spec_membership_conditions(
    cfg: ValidatorConfig,
    payer: Pubkey,
    token_account: TokenAccount,
    metadata: MetadataAccount,
) -> bool {
    &&& token_account.owner@ == payer@
    &&& token_account.amount >= 1
    &&& metadata.owner_program@ == cfg.metadata_authority@
    &&& parsed_metadata(metadata.data@) matches Some(pm)
    &&& pm.0 == token_account.mint@
    &&& pm.1 matches Some(c)
    &&& c == cfg.collection_mint@
}

/// Proves that the requesting signer is a member of the configured
/// collection: the signer owns a non-empty holding of a token whose
/// authentic metadata names the configured collection as parent.
pub fn is_signer_nft_member(
    cfg: &ValidatorConfig,
    signer: &Pubkey,
    metadata_account: &MetadataAccount,
    token_account: &TokenAccount,
) -> (r: Result<(), ErrorCode>)
    ensures
        r == spec_validate(
            *cfg,
            signer@,
            token_account.owner@,
            token_account.mint@,
            token_account.amount,
            metadata_account.owner_program@,
            parsed_metadata(metadata_account.data@),
        ),
{
    if !pubkey_eq(&token_account.owner, signer) {
        return Err(ErrorCode::InvalidTokenOwner);
    }
    if token_account.amount < 1 {
        return Err(ErrorCode::InvalidTokenAmount);
    }
    if !pubkey_eq(&metadata_account.owner_program, &cfg.metadata_authority) {
        return Err(ErrorCode::NonMetaplexMetadataAccount);
    }
    let parsed = deserialize_metadata(&metadata_account.data);
    check_parsed_membership(cfg, &token_account.mint, &parsed)
}

} // verus!
