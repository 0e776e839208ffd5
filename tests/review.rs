use borsh::BorshSerialize;
use movie_review::address::Address;
use movie_review::error::{MovieReviewError, ProcessError};
use movie_review::instruction::MovieReviewInstruction;
use movie_review::processor::{
    add_movie_review, complete_add_movie_review, delete_movie_review, process_instruction, update_movie_review,
    Account, Action,
};
use movie_review::state::{MovieAccountState, ACCOUNT_LEN};
use solana_program::pubkey::Pubkey;

const PROGRAM: [u8; 32] = [7u8; 32];
const REVIEWER: [u8; 32] = [3u8; 32];

fn derived(reviewer: [u8; 32], title: &str) -> ([u8; 32], u8) {
    let (key, bump) = Pubkey::find_program_address(
        &[&reviewer, title.as_bytes()],
        &Pubkey::new_from_array(PROGRAM),
    );
    (key.to_bytes(), bump)
}

fn accounts_for(title: &str, signed: bool, data: Vec<u8>) -> Vec<Account> {
    let (slot, _) = derived(REVIEWER, title);
    vec![
        Account { key: Address { bytes: REVIEWER }, owner: Address { bytes: [0u8; 32] }, is_signer: signed, data: vec![] },
        Account { key: Address { bytes: slot }, owner: Address { bytes: PROGRAM }, is_signer: false, data },
        Account { key: Address { bytes: [0u8; 32] }, owner: Address { bytes: [0u8; 32] }, is_signer: false, data: vec![] },
    ]
}

fn program() -> Address {
    Address { bytes: PROGRAM }
}

fn add(title: &str, rating: u8, review: &str) -> (Vec<Account>, Result<(), ProcessError>) {
    let mut accounts = accounts_for(title, true, vec![0u8; ACCOUNT_LEN]);
    let r = add_movie_review(&program(), &accounts, &title.to_string(), rating, &review.to_string());
    match r {
        Ok(_) => {
            let r = complete_add_movie_review(&mut accounts, title.to_string(), rating, review.to_string());
            (accounts, r)
        }
        Err(e) => (accounts, Err(e)),
    }
}

fn encode_str(out: &mut Vec<u8>, s: &str) {
    out.extend_from_slice(&(s.len() as u32).to_le_bytes());
    out.extend_from_slice(s.as_bytes());
}

fn instruction(tag: u8, title: &str, rating: u8, review: &str) -> Vec<u8> {
    let mut out = vec![tag];
    encode_str(&mut out, title);
    out.push(rating);
    encode_str(&mut out, review);
    out
}

fn read(data: &[u8]) -> MovieAccountState {
    MovieAccountState::deserialize(data).expect("record decodes")
}

#[test]
fn add_stores_the_review() {
    let (accounts, r) = add("Dune", 4, "spice");
    assert_eq!(r, Ok(()));
    let rec = read(&accounts[1].data);
    assert!(rec.is_initialized());
    assert_eq!(rec.discriminator, "review");
    assert_eq!(rec.title, "Dune");
    assert_eq!(rec.rating, 4);
    assert_eq!(rec.review, "spice");
    assert_eq!(rec.reviewer.bytes, REVIEWER);
    assert_eq!(accounts[1].data.len(), ACCOUNT_LEN);
}

#[test]
fn add_plans_the_derived_slot() {
    let accounts = accounts_for("Alien", true, vec![0u8; ACCOUNT_LEN]);
    let plan = add_movie_review(&program(), &accounts, &"Alien".to_string(), 3, &"in space".to_string()).unwrap();
    let (slot, bump) = derived(REVIEWER, "Alien");
    assert_eq!(plan.address.bytes, slot);
    assert_eq!(plan.bump, bump);
    assert_eq!(plan.space, 1000);
}

#[test]
fn add_rejects_rating_zero_and_six() {
    assert_eq!(add("Heat", 0, "x").1, Err(ProcessError::Review(MovieReviewError::InvalidRating)));
    assert_eq!(add("Heat", 6, "x").1, Err(ProcessError::Review(MovieReviewError::InvalidRating)));
}

#[test]
fn add_accepts_rating_one_and_five() {
    assert_eq!(add("Heat", 1, "x").1, Ok(()));
    assert_eq!(add("Heat", 5, "x").1, Ok(()));
}

#[test]
fn add_rejects_size_over_capacity() {
    let title = "Ran";
    let review = "a".repeat(1001 - 20 - title.len());
    assert_eq!(MovieAccountState::get_account_size(title.to_string(), review.clone()), 1001);
    let accounts = accounts_for(title, true, vec![0u8; ACCOUNT_LEN]);
    let r = add_movie_review(&program(), &accounts, &title.to_string(), 3, &review);
    assert_eq!(r.err(), Some(ProcessError::Review(MovieReviewError::InvalidDataLength)));
}

#[test]
fn add_at_exact_capacity_passes_checks_but_record_exceeds_slot() {
    let title = "Ran";
    let review = "a".repeat(1000 - 20 - title.len());
    assert_eq!(MovieAccountState::get_account_size(title.to_string(), review.clone()), 1000);
    let mut accounts = accounts_for(title, true, vec![0u8; ACCOUNT_LEN]);
    assert!(add_movie_review(&program(), &accounts, &title.to_string(), 3, &review).is_ok());
    let r = complete_add_movie_review(&mut accounts, title.to_string(), 3, review);
    assert_eq!(r, Err(ProcessError::AccountDataTooSmall));
    assert_eq!(accounts[1].data, vec![0u8; ACCOUNT_LEN]);
}

#[test]
fn add_largest_review_that_fits_the_slot() {
    let title = "Ran";
    let review = "a".repeat(1000 - 52 - title.len());
    let (accounts, r) = add(title, 2, &review);
    assert_eq!(r, Ok(()));
    assert_eq!(read(&accounts[1].data).review, review);
}

#[test]
fn add_rejects_wrong_address() {
    let mut accounts = accounts_for("Jaws", true, vec![0u8; ACCOUNT_LEN]);
    accounts[1].key = Address { bytes: [9u8; 32] };
    let r = add_movie_review(&program(), &accounts, &"Jaws".to_string(), 3, &"shark".to_string());
    assert_eq!(r.err(), Some(ProcessError::Review(MovieReviewError::InvalidPDA)));
}

#[test]
fn add_rejects_slot_of_other_title() {
    let mut accounts = accounts_for("Jaws", true, vec![0u8; ACCOUNT_LEN]);
    accounts[1].key = Address { bytes: derived(REVIEWER, "Jaws 2").0 };
    let r = add_movie_review(&program(), &accounts, &"Jaws".to_string(), 3, &"shark".to_string());
    assert_eq!(r.err(), Some(ProcessError::Review(MovieReviewError::InvalidPDA)));
}

#[test]
fn add_rejects_foreign_owner() {
    let mut accounts = accounts_for("Jaws", true, vec![0u8; ACCOUNT_LEN]);
    accounts[1].owner = Address { bytes: [1u8; 32] };
    let r = add_movie_review(&program(), &accounts, &"Jaws".to_string(), 3, &"shark".to_string());
    assert_eq!(r.err(), Some(ProcessError::IllegalOwner));
}

#[test]
fn add_to_initialized_slot_fails_and_keeps_bytes() {
    let (mut accounts, r) = add("Up", 5, "balloons");
    assert_eq!(r, Ok(()));
    let before = accounts[1].data.clone();
    let r = complete_add_movie_review(&mut accounts, "Up".to_string(), 1, "other".to_string());
    assert_eq!(r, Err(ProcessError::AccountAlreadyInitialized));
    assert_eq!(accounts[1].data, before);
}

#[test]
fn add_needs_three_accounts() {
    let mut accounts = accounts_for("Up", true, vec![0u8; ACCOUNT_LEN]);
    accounts.pop();
    let r = add_movie_review(&program(), &accounts, &"Up".to_string(), 3, &"x".to_string());
    assert_eq!(r.err(), Some(ProcessError::NotEnoughAccountKeys));
}

#[test]
fn update_uninitialized_slot_fails() {
    let mut accounts = accounts_for("Up", true, vec![0u8; ACCOUNT_LEN]);
    let r = update_movie_review(&program(), &mut accounts, "Up".to_string(), 3, "x".to_string());
    assert_eq!(r, Err(ProcessError::Review(MovieReviewError::UninitializedAccount)));
    assert_eq!(accounts[1].data, vec![0u8; ACCOUNT_LEN]);
}

#[test]
fn update_malformed_slot_counts_as_uninitialized() {
    let mut accounts = accounts_for("Up", true, vec![0xffu8; 8]);
    let r = update_movie_review(&program(), &mut accounts, "Up".to_string(), 3, "x".to_string());
    assert_eq!(r, Err(ProcessError::Review(MovieReviewError::UninitializedAccount)));
}

#[test]
fn update_changes_only_rating_and_review() {
    let (mut accounts, r) = add("Up", 5, "a long review of balloons");
    assert_eq!(r, Ok(()));
    let r = update_movie_review(&program(), &mut accounts, "Up".to_string(), 2, "short".to_string());
    assert_eq!(r, Ok(()));
    let rec = read(&accounts[1].data);
    assert_eq!(rec.title, "Up");
    assert_eq!(rec.reviewer.bytes, REVIEWER);
    assert_eq!(rec.rating, 2);
    assert_eq!(rec.review, "short");
    assert!(rec.is_initialized);
    assert_eq!(accounts[1].data.len(), ACCOUNT_LEN);
    let r = update_movie_review(&program(), &mut accounts, "Up".to_string(), 3, "again".to_string());
    assert_eq!(r, Ok(()));
    assert_eq!(read(&accounts[1].data).review, "again");
    assert_eq!(read(&accounts[1].data).rating, 3);
}

#[test]
fn update_checks_rating_and_size() {
    let (mut accounts, _) = add("Up", 5, "x");
    let before = accounts[1].data.clone();
    let r = update_movie_review(&program(), &mut accounts, "Up".to_string(), 0, "y".to_string());
    assert_eq!(r, Err(ProcessError::Review(MovieReviewError::InvalidRating)));
    let r = update_movie_review(&program(), &mut accounts, "Up".to_string(), 3, "y".repeat(1000));
    assert_eq!(r, Err(ProcessError::Review(MovieReviewError::InvalidDataLength)));
    assert_eq!(accounts[1].data, before);
}

#[test]
fn unsigned_add_and_update_fail_on_signature_first() {
    let accounts = accounts_for("Up", false, vec![0u8; ACCOUNT_LEN]);
    let r = add_movie_review(&program(), &accounts, &"Up".to_string(), 9, &"y".repeat(2000));
    assert_eq!(r.err(), Some(ProcessError::MissingRequiredSignature));
    let mut accounts = accounts_for("Up", false, vec![0u8; 4]);
    accounts[1].key = Address { bytes: [9u8; 32] };
    let r = update_movie_review(&program(), &mut accounts, "Up".to_string(), 0, "y".repeat(2000));
    assert_eq!(r, Err(ProcessError::MissingRequiredSignature));
}

#[test]
fn delete_clears_the_slot() {
    let (mut accounts, _) = add("Up", 5, "x");
    let r = delete_movie_review(&program(), &mut accounts, "Up".to_string());
    assert_eq!(r, Ok(()));
    assert_eq!(accounts[1].data, vec![0u8; ACCOUNT_LEN]);
    let r = delete_movie_review(&program(), &mut accounts, "Up".to_string());
    assert_eq!(r, Err(ProcessError::Review(MovieReviewError::UninitializedAccount)));
}

#[test]
fn record_round_trip() {
    let rec = MovieAccountState {
        discriminator: "review".to_string(),
        is_initialized: true,
        reviewer: Address { bytes: REVIEWER },
        title: "Amélie".to_string(),
        rating: 5,
        review: "très bien ✓".to_string(),
    };
    let mut bytes = rec.serialize();
    bytes.extend_from_slice(&[0u8; 10]);
    let back = read(&bytes);
    assert_eq!(back.discriminator, rec.discriminator);
    assert_eq!(back.is_initialized, rec.is_initialized);
    assert_eq!(back.reviewer.bytes, rec.reviewer.bytes);
    assert_eq!(back.title, rec.title);
    assert_eq!(back.rating, rec.rating);
    assert_eq!(back.review, rec.review);
}

#[test]
fn record_encoding_matches_borsh() {
    let rec = MovieAccountState {
        discriminator: "review".to_string(),
        is_initialized: true,
        reviewer: Address { bytes: REVIEWER },
        title: "Amélie".to_string(),
        rating: 4,
        review: "ok".to_string(),
    };
    let expected = (
        rec.discriminator.clone(),
        rec.is_initialized,
        REVIEWER,
        rec.title.clone(),
        rec.rating,
        rec.review.clone(),
    )
        .try_to_vec()
        .unwrap();
    assert_eq!(rec.serialize(), expected);
}

#[test]
fn deserialize_rejects_bad_utf8_and_bad_flag() {
    let mut bytes = vec![2u8, 0, 0, 0, 0xff, 0xfe];
    bytes.extend_from_slice(&[0u8; 60]);
    assert!(MovieAccountState::deserialize(&bytes).is_none());
    let mut bytes = vec![0u8, 0, 0, 0, 2];
    bytes.extend_from_slice(&[0u8; 60]);
    assert!(MovieAccountState::deserialize(&bytes).is_none());
    assert!(MovieAccountState::deserialize(&[1u8, 2]).is_none());
}

#[test]
fn zeroed_slot_decodes_as_uninitialized() {
    let rec = read(&[0u8; ACCOUNT_LEN]);
    assert!(!rec.is_initialized());
    assert_eq!(rec.title, "");
}

#[test]
fn account_size_formula() {
    assert_eq!(MovieAccountState::get_account_size(String::new(), String::new()), 20);
    assert_eq!(MovieAccountState::get_account_size("abc".to_string(), "é".to_string()), 25);
}

#[test]
fn error_codes() {
    assert_eq!(MovieReviewError::UninitializedAccount.code(), 0);
    assert_eq!(MovieReviewError::InvalidPDA.code(), 1);
    assert_eq!(MovieReviewError::InvalidDataLength.code(), 2);
    assert_eq!(MovieReviewError::InvalidRating.code(), 3);
    assert_eq!(MovieReviewError::IncorrectAccount.code(), 4);
    assert_eq!(MovieReviewError::AmountOverflow.code(), 5);
}

#[test]
fn unpack_variants() {
    match MovieReviewInstruction::unpack(&instruction(0, "Up", 4, "nice")) {
        Ok(MovieReviewInstruction::AddMovieReview { title, rating, review }) => {
            assert_eq!((title.as_str(), rating, review.as_str()), ("Up", 4, "nice"));
        }
        _ => panic!("expected add"),
    }
    match MovieReviewInstruction::unpack(&instruction(1, "Up", 2, "")) {
        Ok(MovieReviewInstruction::UpdateMovieReview { title, rating, review }) => {
            assert_eq!((title.as_str(), rating, review.as_str()), ("Up", 2, ""));
        }
        _ => panic!("expected update"),
    }
    let mut delete = vec![2u8];
    encode_str(&mut delete, "Up");
    match MovieReviewInstruction::unpack(&delete) {
        Ok(MovieReviewInstruction::DeleteMovieReview { title }) => assert_eq!(title, "Up"),
        _ => panic!("expected delete"),
    }
}

#[test]
fn unpack_rejects_malformed() {
    let bad = ProcessError::InvalidInstructionData;
    assert_eq!(MovieReviewInstruction::unpack(&[]).err(), Some(bad));
    assert_eq!(MovieReviewInstruction::unpack(&instruction(3, "Up", 4, "x")).err(), Some(bad));
    let mut trailing = instruction(0, "Up", 4, "x");
    trailing.push(0);
    assert_eq!(MovieReviewInstruction::unpack(&trailing).err(), Some(bad));
    let mut short = instruction(1, "Up", 4, "x");
    short.pop();
    assert_eq!(MovieReviewInstruction::unpack(&short).err(), Some(bad));
    assert_eq!(MovieReviewInstruction::unpack(&[0u8, 5, 0, 0, 0, b'a']).err(), Some(bad));
}

#[test]
fn process_add_then_update() {
    let mut accounts = accounts_for("Up", true, vec![0u8; ACCOUNT_LEN]);
    let action = process_instruction(&program(), &mut accounts, &instruction(0, "Up", 4, "nice")).unwrap();
    match action {
        Action::CreateSlot { allocation, title, rating, review } => {
            assert_eq!(allocation.address.bytes, derived(REVIEWER, "Up").0);
            assert_eq!(complete_add_movie_review(&mut accounts, title, rating, review), Ok(()));
        }
        Action::Done => panic!("expected a slot to create"),
    }
    let action = process_instruction(&program(), &mut accounts, &instruction(1, "Up", 1, "meh")).unwrap();
    assert!(matches!(action, Action::Done));
    assert_eq!(read(&accounts[1].data).rating, 1);
    let r = process_instruction(&program(), &mut accounts, &[9u8]);
    assert_eq!(r.err(), Some(ProcessError::InvalidInstructionData));
}
