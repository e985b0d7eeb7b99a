use borsh::BorshSerialize;
use transparency_anchor::errors::ErrorCode;
use transparency_anchor::nft_validation::{MetadataAccount, TokenAccount, ValidatorConfig};
use transparency_anchor::pda::derive_post_address;
use transparency_anchor::program::{CreatePost, DeletePost, TransparencyProgram, UpdatePost};
use transparency_anchor::pubkey::{pubkey_eq, Pubkey};
use transparency_anchor::store::PostStore;

fn key(n: u8) -> Pubkey {
    Pubkey::new([n; 32])
}

const PROGRAM_ID: u8 = 9;
const AUTHORITY: u8 = 7;
const COLLECTION: u8 = 8;
const PAYER: u8 = 1;
const TOPIC: u8 = 2;
const MINT: u8 = 3;

fn metadata_bytes(mint: [u8; 32], collection: Option<[u8; 32]>) -> Vec<u8> {
    let metadata = mpl_token_metadata::accounts::Metadata {
        key: mpl_token_metadata::types::Key::MetadataV1,
        update_authority: [0u8; 32].into(),
        mint: mint.into(),
        name: String::from("nft"),
        symbol: String::from("NFT"),
        uri: String::from("uri"),
        seller_fee_basis_points: 0,
        creators: None,
        primary_sale_happened: false,
        is_mutable: true,
        edition_nonce: None,
        token_standard: None,
        collection: collection.map(|k| mpl_token_metadata::types::Collection {
            verified: true,
            key: k.into(),
        }),
        uses: None,
        collection_details: None,
        programmable_config: None,
    };
    metadata.try_to_vec().unwrap()
}

fn member_token() -> TokenAccount {
    TokenAccount { owner: key(PAYER), mint: key(MINT), amount: 1 }
}

fn member_metadata() -> MetadataAccount {
    MetadataAccount {
        owner_program: key(AUTHORITY),
        data: metadata_bytes([MINT; 32], Some([COLLECTION; 32])),
    }
}

fn config() -> ValidatorConfig {
    ValidatorConfig { metadata_authority: key(AUTHORITY), collection_mint: key(COLLECTION) }
}

fn fresh_program() -> TransparencyProgram {
    TransparencyProgram::new(key(PROGRAM_ID), config())
}

fn create_accounts() -> CreatePost {
    CreatePost {
        payer: key(PAYER),
        token_account: member_token(),
        metadata: member_metadata(),
        topic_address: key(TOPIC),
    }
}

fn update_accounts() -> UpdatePost {
    UpdatePost {
        payer: key(PAYER),
        token_account: member_token(),
        metadata: member_metadata(),
        topic_address: key(TOPIC),
    }
}

fn delete_accounts() -> DeletePost {
    DeletePost { payer: key(PAYER), topic_address: key(TOPIC) }
}

#[test]
fn derive_is_deterministic() {
    let a = derive_post_address(&key(TOPIC), &key(PAYER), &key(PROGRAM_ID)).unwrap();
    let b = derive_post_address(&key(TOPIC), &key(PAYER), &key(PROGRAM_ID)).unwrap();
    assert_eq!(a.0, b.0);
    assert_eq!(a.1, b.1);
}

#[test]
fn derive_distinct_pairs_distinct_addresses() {
    let mut addresses = Vec::new();
    for topic in 10u8..14 {
        for author in 20u8..24 {
            let (address, _) =
                derive_post_address(&key(topic), &key(author), &key(PROGRAM_ID)).unwrap();
            addresses.push(address);
        }
    }
    for i in 0..addresses.len() {
        for j in 0..addresses.len() {
            if i != j {
                assert_ne!(addresses[i], addresses[j]);
            }
        }
    }
}

#[test]
fn derive_matches_runtime_derivation() {
    let (address, bump) = derive_post_address(&key(TOPIC), &key(PAYER), &key(PROGRAM_ID)).unwrap();
    let program_id = anchor_lang::prelude::Pubkey::new_from_array([PROGRAM_ID; 32]);
    let (expected, expected_bump) = anchor_lang::prelude::Pubkey::find_program_address(
        &[b"post", &[TOPIC; 32], &[PAYER; 32]],
        &program_id,
    );
    assert_eq!(address.bytes, expected.to_bytes());
    assert_eq!(bump, expected_bump);
}

#[test]
fn create_then_get_reads_back() {
    let mut program = fresh_program();
    let r = program.create_post(&create_accounts(), String::from("https://x/a"), true, 4);
    assert_eq!(r, Ok(()));
    let post = program.get_post(&key(TOPIC), &key(PAYER)).unwrap();
    assert_eq!(post.author, key(PAYER));
    assert_eq!(post.topic_address, key(TOPIC));
    assert_eq!(post.post_file_url, "https://x/a");
    assert!(post.is_scam);
    assert_eq!(post.post_rating, 4);
}

#[test]
fn create_rejects_wrong_owner() {
    let mut program = fresh_program();
    let mut accounts = create_accounts();
    accounts.token_account.owner = key(42);
    let r = program.create_post(&accounts, String::from("u"), false, 3);
    assert_eq!(r, Err(ErrorCode::InvalidTokenOwner));
    assert!(program.get_post(&key(TOPIC), &key(PAYER)).is_none());
}

#[test]
fn create_rejects_zero_amount() {
    let mut program = fresh_program();
    let mut accounts = create_accounts();
    accounts.token_account.amount = 0;
    let r = program.create_post(&accounts, String::from("u"), false, 3);
    assert_eq!(r, Err(ErrorCode::InvalidTokenAmount));
}

#[test]
fn create_rejects_foreign_metadata_owner() {
    let mut program = fresh_program();
    let mut accounts = create_accounts();
    accounts.metadata.owner_program = key(42);
    let r = program.create_post(&accounts, String::from("u"), false, 3);
    assert_eq!(r, Err(ErrorCode::NonMetaplexMetadataAccount));
}

#[test]
fn create_rejects_undecodable_metadata() {
    let mut program = fresh_program();
    let mut accounts = create_accounts();
    accounts.metadata.data = vec![0u8, 1, 2, 3];
    let r = program.create_post(&accounts, String::from("u"), false, 3);
    assert_eq!(r, Err(ErrorCode::NonMetaplexMetadataAccount));
}

#[test]
fn create_rejects_wrong_mint() {
    let mut program = fresh_program();
    let mut accounts = create_accounts();
    accounts.metadata.data = metadata_bytes([44; 32], Some([COLLECTION; 32]));
    let r = program.create_post(&accounts, String::from("u"), false, 3);
    assert_eq!(r, Err(ErrorCode::IncorrectMint));
}

#[test]
fn create_rejects_missing_collection() {
    let mut program = fresh_program();
    let mut accounts = create_accounts();
    accounts.metadata.data = metadata_bytes([MINT; 32], None);
    let r = program.create_post(&accounts, String::from("u"), false, 3);
    assert_eq!(r, Err(ErrorCode::MissingCollection));
}

#[test]
fn create_rejects_wrong_collection() {
    let mut program = fresh_program();
    let mut accounts = create_accounts();
    accounts.metadata.data = metadata_bytes([MINT; 32], Some([45; 32]));
    let r = program.create_post(&accounts, String::from("u"), false, 3);
    assert_eq!(r, Err(ErrorCode::InvalidCollection));
}

#[test]
fn create_rating_boundaries() {
    for (rating, ok) in [(0u8, false), (1, true), (5, true), (6, false)] {
        let mut program = fresh_program();
        let r = program.create_post(&create_accounts(), String::from("u"), false, rating);
        if ok {
            assert_eq!(r, Ok(()));
        } else {
            assert_eq!(r, Err(ErrorCode::InvalidPostRating));
        }
    }
}

#[test]
fn update_rating_boundaries() {
    for (rating, ok) in [(0u8, false), (1, true), (5, true), (6, false)] {
        let mut program = fresh_program();
        let r = program.create_post(&create_accounts(), String::from("u"), false, 3);
        assert_eq!(r, Ok(()));
        let r = program.update_post(&update_accounts(), String::from("v"), true, rating).unwrap();
        if ok {
            assert_eq!(r, Ok(()));
        } else {
            assert_eq!(r, Err(ErrorCode::InvalidPostRating));
        }
    }
}

#[test]
fn create_twice_fails() {
    let mut program = fresh_program();
    let r = program.create_post(&create_accounts(), String::from("first"), false, 2);
    assert_eq!(r, Ok(()));
    let r = program.create_post(&create_accounts(), String::from("second"), true, 5);
    assert_eq!(r, Err(ErrorCode::PostAlreadyExists));
    let post = program.get_post(&key(TOPIC), &key(PAYER)).unwrap();
    assert_eq!(post.post_file_url, "first");
    assert!(!post.is_scam);
    assert_eq!(post.post_rating, 2);
}

#[test]
fn update_changes_only_mutable_fields() {
    let mut program = fresh_program();
    program.create_post(&create_accounts(), String::from("old"), false, 2).unwrap();
    let r = program.update_post(&update_accounts(), String::from("new"), true, 5).unwrap();
    assert_eq!(r, Ok(()));
    let post = program.get_post(&key(TOPIC), &key(PAYER)).unwrap();
    assert_eq!(post.author, key(PAYER));
    assert_eq!(post.topic_address, key(TOPIC));
    assert_eq!(post.post_file_url, "new");
    assert!(post.is_scam);
    assert_eq!(post.post_rating, 5);
}

#[test]
fn update_non_author_fails_and_record_unchanged() {
    // A record whose author differs from the payer that its address was
    // derived for can only come from the store interface directly.
    let mut program = fresh_program();
    let (address, _) = derive_post_address(&key(TOPIC), &key(PAYER), &key(PROGRAM_ID)).unwrap();
    program
        .store
        .create(&address, &key(50), &key(TOPIC), String::from("theirs"), false, 2)
        .unwrap();
    let r = program.update_post(&update_accounts(), String::from("mine"), true, 5).unwrap();
    assert_eq!(r, Err(ErrorCode::InvalidPostAuthor));
    let post = program.get_post(&key(TOPIC), &key(PAYER)).unwrap();
    assert_eq!(post.author, key(50));
    assert_eq!(post.post_file_url, "theirs");
    assert!(!post.is_scam);
    assert_eq!(post.post_rating, 2);
}

#[test]
fn update_absent_record_is_a_precondition_failure() {
    let mut program = fresh_program();
    let r = program.update_post(&update_accounts(), String::from("u"), false, 3);
    assert!(r.is_none());
}

#[test]
fn delete_absent_record_is_a_precondition_failure() {
    let mut program = fresh_program();
    let r = program.delete_post(&delete_accounts());
    assert!(r.is_none());
}

#[test]
fn delete_then_create_holds_only_new_values() {
    let mut program = fresh_program();
    program.create_post(&create_accounts(), String::from("old"), true, 2).unwrap();
    let r = program.delete_post(&delete_accounts()).unwrap();
    assert_eq!(r, Ok(()));
    assert!(program.get_post(&key(TOPIC), &key(PAYER)).is_none());
    let r = program.create_post(&create_accounts(), String::from("new"), false, 5);
    assert_eq!(r, Ok(()));
    let post = program.get_post(&key(TOPIC), &key(PAYER)).unwrap();
    assert_eq!(post.author, key(PAYER));
    assert_eq!(post.topic_address, key(TOPIC));
    assert_eq!(post.post_file_url, "new");
    assert!(!post.is_scam);
    assert_eq!(post.post_rating, 5);
}

#[test]
fn delete_non_author_fails() {
    let mut store = PostStore::new();
    let address = key(60);
    store.create(&address, &key(PAYER), &key(TOPIC), String::from("u"), false, 3).unwrap();
    let r = store.delete(&address, &key(61));
    assert_eq!(r, Err(ErrorCode::InvalidPostAuthor));
    assert!(store.get_post(&address).is_some());
}

#[test]
fn store_update_non_author_fails() {
    let mut store = PostStore::new();
    let address = key(60);
    store.create(&address, &key(PAYER), &key(TOPIC), String::from("u"), false, 3).unwrap();
    let r = store.update(&address, &key(61), String::from("v"), true, 4);
    assert_eq!(r, Err(ErrorCode::InvalidPostAuthor));
    let post = store.get_post(&address).unwrap();
    assert_eq!(post.post_file_url, "u");
    assert_eq!(post.post_rating, 3);
}

#[test]
fn config_rejects_malformed_identity() {
    let short = vec![1u8; 31];
    let full = vec![2u8; 32];
    assert_eq!(ValidatorConfig::new(&short, &full).unwrap_err(), ErrorCode::BadPubkey);
    assert_eq!(ValidatorConfig::new(&full, &short).unwrap_err(), ErrorCode::BadPubkey);
    let config = ValidatorConfig::new(&vec![1u8; 32], &vec![2u8; 32]).unwrap();
    assert_eq!(config.metadata_authority, key(1));
    assert_eq!(config.collection_mint, key(2));
}

#[test]
fn pubkey_equality_is_bytewise() {
    assert!(pubkey_eq(&key(1), &key(1)));
    assert!(!pubkey_eq(&key(1), &key(2)));
    let mut almost = [3u8; 32];
    almost[31] = 4;
    assert!(!pubkey_eq(&Pubkey::new(almost), &key(3)));
}

#[test]
fn error_messages_match_taxonomy() {
    assert_eq!(ErrorCode::PostAlreadyExists.message(), "Post already exists");
    assert_eq!(ErrorCode::InvalidPostRating.message(), "Invalid post rating");
    assert_eq!(ErrorCode::BadPubkey.message(), "Bad Pubkey");
    assert_eq!(
        ErrorCode::NonMetaplexMetadataAccount.message(),
        "Metadata account must be owned by metaplex"
    );
}
