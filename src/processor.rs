use vstd::prelude::*;
use vstd::utf8::*;
use crate::address::{Address, find_review_address, is_review_address, program_address, review_seeds};
use crate::error::{MovieReviewError, ProcessError};
use crate::state::{
    ACCOUNT_LEN, MovieAccountState, RecordView, account_size, decode_record, encode_record,
    lemma_decoded_encodable, review_tag,
};
use crate::instruction::{InstructionView, MovieReviewInstruction, decode_instruction};

verus! {

/// An account handed to the program: its address, its owner, whether it
/// signed, and its data.
pub struct Account {
    pub key: Address,
    pub owner: Address,
    pub is_signer: bool,
    pub data: Vec<u8>,
}

pub struct AccountView {
    pub key: Seq<u8>,
    pub owner: Seq<u8>,
    pub is_signer: bool,
    pub data: Seq<u8>,
}

impl View for Account {
    type V = AccountView;

    open spec fn view(&self) -> AccountView {
        AccountView { key: self.key@, owner: self.owner@, is_signer: self.is_signer, data: self.data@ }
    }
}

/// A slot that the host must create before a review is added: its address,
/// the bump that completes its seeds, and its size in bytes.
pub struct SlotAllocation {
    pub address: Address,
    pub bump: u8,
    pub space: usize,
}

/// What the host does after an instruction was accepted.
pub enum Action {
    /// Nothing: the accounts hold the result.
    Done,
    /// Create the slot, then complete the review with these fields.
    CreateSlot { allocation: SlotAllocation, title: String, rating: u8, review: String },
}

pub open spec fn account_views(accounts: Seq<Account>) -> Seq<AccountView> {
    accounts.map_values(|a: Account| a@)
}

pub open spec fn valid_rating(rating: u8) -> bool {
    1 <= rating <= 5
}

/// Whether a review with this title and text fits the slot capacity.
pub open spec fn fits_capacity(title: Seq<char>, review: Seq<char>) -> bool {
    account_size(encode_utf8(title).len() as int, encode_utf8(review).len() as int) <= ACCOUNT_LEN
}

/// Whether the data of a slot holds an initialized review.
pub open spec fn holds_review(data: Seq<u8>) -> bool {
    match decode_record(data) {
        Some((v, _)) => v.is_initialized,
        None => false,
    }
}

/// A slot's data after `v` is written to it: the encoding, then zeros up to
/// the slot's length.
pub open spec fn stored(v: RecordView, len: nat) -> Seq<u8> {
    encode_record(v) + Seq::new((len - encode_record(v).len()) as nat, |i: int| 0u8)
}

pub open spec fn with_data(a: AccountView, data: Seq<u8>) -> AccountView {
    AccountView { key: a.key, owner: a.owner, is_signer: a.is_signer, data }
}

/// The outcome of the checks that come before creating a review's slot: the
/// slot's address and bump, or the first check that fails.
pub open spec fn add_checks(
    program: Seq<u8>,
    accounts: Seq<AccountView>,
    title: Seq<char>,
    rating: u8,
    review: Seq<char>,
) -> Result<(Seq<u8>, u8), ProcessError> {
    if accounts.len() < 3 {
        Err(ProcessError::NotEnoughAccountKeys)
    } else if !accounts[0].is_signer {
        Err(ProcessError::MissingRequiredSignature)
    } else if accounts[1].owner != program {
        Err(ProcessError::IllegalOwner)
    } else {
        match program_address(review_seeds(accounts[0].key, encode_utf8(title)), program) {
            Some((a, bump)) => if a != accounts[1].key {
                Err(ProcessError::Review(MovieReviewError::InvalidPDA))
            } else if !valid_rating(rating) {
                Err(ProcessError::Review(MovieReviewError::InvalidRating))
            } else if !fits_capacity(title, review) {
                Err(ProcessError::Review(MovieReviewError::InvalidDataLength))
            } else {
                Ok((a, bump))
            },
            None => Err(ProcessError::Review(MovieReviewError::InvalidPDA)),
        }
    }
}

/// The new review that a freshly created slot receives.
pub open spec fn new_review(reviewer: Seq<u8>, title: Seq<char>, rating: u8, review: Seq<char>) -> RecordView {
    RecordView { discriminator: review_tag(), is_initialized: true, reviewer, title, rating, review }
}

/// The outcome of writing a new review into its created slot: the record, or
/// the first check that fails.
pub open spec fn complete_add_checks(
    accounts: Seq<AccountView>,
    title: Seq<char>,
    rating: u8,
    review: Seq<char>,
) -> Result<RecordView, ProcessError> {
    if accounts.len() < 2 {
        Err(ProcessError::NotEnoughAccountKeys)
    } else if holds_review(accounts[1].data) {
        Err(ProcessError::AccountAlreadyInitialized)
    } else if !valid_rating(rating) {
        Err(ProcessError::Review(MovieReviewError::InvalidRating))
    } else if !fits_capacity(title, review) {
        Err(ProcessError::Review(MovieReviewError::InvalidDataLength))
    } else if encode_record(new_review(accounts[0].key, title, rating, review)).len() > accounts[1].data.len() {
        Err(ProcessError::AccountDataTooSmall)
    } else {
        Ok(new_review(accounts[0].key, title, rating, review))
    }
}

/// The outcome of an update: the updated record, or the first check that fails.
pub open spec fn update_checks(
    program: Seq<u8>,
    accounts: Seq<AccountView>,
    title: Seq<char>,
    rating: u8,
    review: Seq<char>,
) -> Result<RecordView, ProcessError> {
    if accounts.len() < 2 {
        Err(ProcessError::NotEnoughAccountKeys)
    } else if !accounts[0].is_signer {
        Err(ProcessError::MissingRequiredSignature)
    } else if !is_review_address(program, accounts[0].key, encode_utf8(title), accounts[1].key) {
        Err(ProcessError::Review(MovieReviewError::InvalidPDA))
    } else if !holds_review(accounts[1].data) {
        Err(ProcessError::Review(MovieReviewError::UninitializedAccount))
    } else if !valid_rating(rating) {
        Err(ProcessError::Review(MovieReviewError::InvalidRating))
    } else if !fits_capacity(title, review) {
        Err(ProcessError::Review(MovieReviewError::InvalidDataLength))
    } else {
        let old = decode_record(accounts[1].data).unwrap().0;
        let new = RecordView { rating, review, ..old };
        if encode_record(new).len() > accounts[1].data.len() {
            Err(ProcessError::AccountDataTooSmall)
        } else {
            Ok(new)
        }
    }
}

/// The outcome of a delete: success, or the first check that fails.
pub open spec fn delete_checks(program: Seq<u8>, accounts: Seq<AccountView>, title: Seq<char>) -> Result<(), ProcessError> {
    if accounts.len() < 2 {
        Err(ProcessError::NotEnoughAccountKeys)
    } else if !accounts[0].is_signer {
        Err(ProcessError::MissingRequiredSignature)
    } else if !is_review_address(program, accounts[0].key, encode_utf8(title), accounts[1].key) {
        Err(ProcessError::Review(MovieReviewError::InvalidPDA))
    } else if !holds_review(accounts[1].data) {
        Err(ProcessError::Review(MovieReviewError::UninitializedAccount))
    } else {
        Ok(())
    }
}

/// The account table after a new review is written into its created slot.
pub open spec fn complete_add_result(
    accounts: Seq<AccountView>,
    title: Seq<char>,
    rating: u8,
    review: Seq<char>,
) -> Result<Seq<AccountView>, ProcessError> {
    match complete_add_checks(accounts, title, rating, review) {
        Ok(v) => Ok(accounts.update(1, with_data(accounts[1], stored(v, accounts[1].data.len())))),
        Err(e) => Err(e),
    }
}

/// The account table after an update.
pub open spec fn update_result(
    program: Seq<u8>,
    accounts: Seq<AccountView>,
    title: Seq<char>,
    rating: u8,
    review: Seq<char>,
) -> Result<Seq<AccountView>, ProcessError> {
    match update_checks(program, accounts, title, rating, review) {
        Ok(v) => Ok(accounts.update(1, with_data(accounts[1], stored(v, accounts[1].data.len())))),
        Err(e) => Err(e),
    }
}

/// The account table after a delete: the slot's bytes are all zero.
pub open spec fn delete_result(program: Seq<u8>, accounts: Seq<AccountView>, title: Seq<char>) -> Result<Seq<AccountView>, ProcessError> {
    match delete_checks(program, accounts, title) {
        Ok(_) => Ok(accounts.update(1, with_data(accounts[1], Seq::new(accounts[1].data.len(), |i: int| 0u8)))),
        Err(e) => Err(e),
    }
}

/// `r` and the account table `after` are the outcome `expected` when applied to `before`.
pub open spec fn applied(
    expected: Result<Seq<AccountView>, ProcessError>,
    before: Seq<AccountView>,
    after: Seq<AccountView>,
    r: Result<(), ProcessError>,
) -> bool {
    match expected {
        Ok(table) => r is Ok && after == table,
        Err(e) => r == Err::<(), ProcessError>(e) && after == before,
    }
}

/// Overwrites `data` with `bytes` followed by zeros.
fn overwrite(data: &mut Vec<u8>, bytes: &Vec<u8>)
    requires
        bytes@.len() <= old(data)@.len(),
    ensures
        final(data)@ == bytes@ + Seq::new((old(data)@.len() - bytes@.len()) as nat, |i: int| 0u8),
{
    let ghost n = data@.len();
    let mut i: usize = 0;
    while i < data.len()
        invariant
            data@.len() == n,
            bytes@.len() <= n,
            i <= n,
            forall|j: int| 0 <= j < i ==> data@[j] == if j < bytes@.len() { bytes@[j] } else { 0u8 },
        decreases n - i,
    {
        let b = if i < bytes.len() { bytes[i] } else { 0u8 };
        data.set(i, b);
        i = i + 1;
    }
    assert(data@ =~= bytes@ + Seq::new((n - bytes@.len()) as nat, |i: int| 0u8));
}

/// Whether the slot's data holds an initialized review, and the record if so.
fn read_review(data: &Vec<u8>) -> (r: Option<MovieAccountState>)
    ensures
        r is Some <==> holds_review(data@),
        r matches Some(rec) ==> decode_record(data@) matches Some((v, _)) && v == rec@,
{
    match MovieAccountState::deserialize(data.as_slice()) {
        Some(rec) => if rec.is_initialized() {
            Some(rec)
        } else {
            None
        },
        None => None,
    }
}

fn fits_capacity_exec(title: &String, review: &String) -> (r: bool)
    ensures
        r == fits_capacity(title@, review@),
{
    MovieAccountState::get_account_size(title.clone(), review.clone()) <= ACCOUNT_LEN
}


proof fn lemma_review_tag_bytes()
    ensures
        encode_utf8(review_tag()).len() == 6,
{
    is_ascii_chars_encode_utf8(review_tag());
}

/// Checks a request to add a review: the accounts are the author, the slot
/// and the system program; the author must sign; the slot must belong to this
/// program and stand at the address derived from the author and the title;
/// the rating must lie in one to five; the review must fit the slot capacity.
/// On success it gives the slot that the host must create.
pub fn add_movie_review(
    program_id: &Address,
    accounts: &Vec<Account>,
    title: &String,
    rating: u8,
    review: &String,
) -> (r: Result<SlotAllocation, ProcessError>)
    ensures
        match add_checks(program_id@, account_views(accounts@), title@, rating, review@) {
            Ok((a, bump)) => r matches Ok(s) && s.address@ == a && s.bump == bump && s.space == ACCOUNT_LEN,
            Err(e) => r matches Err(f) && f == e,
        },
{
    if accounts.len() < 3 {
        return Err(ProcessError::NotEnoughAccountKeys);
    }
    let initializer = &accounts[0];
    let slot = &accounts[1];
    if !initializer.is_signer {
        return Err(ProcessError::MissingRequiredSignature);
    }
    if slot.owner != *program_id {
        return Err(ProcessError::IllegalOwner);
    }
    let (address, bump) = match find_review_address(&initializer.key, title.as_str().as_bytes(), program_id) {
        Some(x) => x,
        None => return Err(ProcessError::Review(MovieReviewError::InvalidPDA)),
    };
    if address != slot.key {
        return Err(ProcessError::Review(MovieReviewError::InvalidPDA));
    }
    if rating > 5 || rating < 1 {
        return Err(ProcessError::Review(MovieReviewError::InvalidRating));
    }
    if !fits_capacity_exec(title, review) {
        return Err(ProcessError::Review(MovieReviewError::InvalidDataLength));
    }
    Ok(SlotAllocation { address, bump, space: ACCOUNT_LEN })
}

/// Writes a new review into its slot once the host has created it: the slot
/// must not hold an initialized review yet, and the rating and size are
/// checked again. On success the slot holds the encoded review, then zeros;
/// on failure no account changes.
pub fn complete_add_movie_review(accounts: &mut Vec<Account>, title: String, rating: u8, review: String) -> (r: Result<(), ProcessError>)
    ensures
        applied(complete_add_result(account_views(old(accounts)@), title@, rating, review@), account_views(old(accounts)@), account_views(final(accounts)@), r),
{
    if accounts.len() < 2 {
        return Err(ProcessError::NotEnoughAccountKeys);
    }
    if read_review(&accounts[1].data).is_some() {
        return Err(ProcessError::AccountAlreadyInitialized);
    }
    if rating > 5 || rating < 1 {
        return Err(ProcessError::Review(MovieReviewError::InvalidRating));
    }
    if !fits_capacity_exec(&title, &review) {
        return Err(ProcessError::Review(MovieReviewError::InvalidDataLength));
    }
    let discriminator = String::from_str(MovieAccountState::DISCRIMINATOR);
    proof {
        reveal_strlit("review");
        assert(discriminator@ =~= review_tag());
        lemma_review_tag_bytes();
    }
    let record = MovieAccountState {
        discriminator,
        is_initialized: true,
        reviewer: accounts[0].key,
        title,
        rating,
        review,
    };
    assert(record@ == new_review(accounts@[0].key@, title@, rating, review@));
    let bytes = record.serialize();
    if bytes.len() > accounts[1].data.len() {
        return Err(ProcessError::AccountDataTooSmall);
    }
    overwrite(&mut accounts[1].data, &bytes);
    assert(account_views(accounts@) =~= account_views(old(accounts)@).update(
        1,
        with_data(old(accounts)@[1]@, stored(record@, old(accounts)@[1].data@.len())),
    ));
    Ok(())
}

/// Changes the rating and the text of a review: the accounts are the author
/// and the slot; the author must sign; the slot must stand at the address
/// derived from the author and the title and hold an initialized review; the
/// rating must lie in one to five; the review must fit the slot capacity. On
/// success the slot holds the record with the new rating and text, then zeros;
/// on failure no account changes.
pub fn update_movie_review(
    program_id: &Address,
    accounts: &mut Vec<Account>,
    title: String,
    rating: u8,
    review: String,
) -> (r: Result<(), ProcessError>)
    ensures
        applied(update_result(program_id@, account_views(old(accounts)@), title@, rating, review@), account_views(old(accounts)@), account_views(final(accounts)@), r),
{
    if accounts.len() < 2 {
        return Err(ProcessError::NotEnoughAccountKeys);
    }
    if !accounts[0].is_signer {
        return Err(ProcessError::MissingRequiredSignature);
    }
    match find_review_address(&accounts[0].key, title.as_str().as_bytes(), program_id) {
        Some((address, _bump)) => if address != accounts[1].key {
            return Err(ProcessError::Review(MovieReviewError::InvalidPDA));
        },
        None => return Err(ProcessError::Review(MovieReviewError::InvalidPDA)),
    }
    let current = match read_review(&accounts[1].data) {
        Some(rec) => rec,
        None => return Err(ProcessError::Review(MovieReviewError::UninitializedAccount)),
    };
    if rating > 5 || rating < 1 {
        return Err(ProcessError::Review(MovieReviewError::InvalidRating));
    }
    if !fits_capacity_exec(&title, &review) {
        return Err(ProcessError::Review(MovieReviewError::InvalidDataLength));
    }
    proof {
        lemma_decoded_encodable(accounts[1].data@);
    }
    let record = MovieAccountState { rating, review, ..current };
    let bytes = record.serialize();
    if bytes.len() > accounts[1].data.len() {
        return Err(ProcessError::AccountDataTooSmall);
    }
    overwrite(&mut accounts[1].data, &bytes);
    assert(account_views(accounts@) =~= account_views(old(accounts)@).update(
        1,
        with_data(old(accounts)@[1]@, stored(record@, old(accounts)@[1].data@.len())),
    ));
    Ok(())
}

/// Removes a review: the accounts are the author and the slot; the author
/// must sign; the slot must stand at the address derived from the author and
/// the title and hold an initialized review. On success every byte of the slot
/// is zero, which holds no review; on failure no account changes.
pub fn delete_movie_review(program_id: &Address, accounts: &mut Vec<Account>, title: String) -> (r: Result<(), ProcessError>)
    ensures
        applied(delete_result(program_id@, account_views(old(accounts)@), title@), account_views(old(accounts)@), account_views(final(accounts)@), r),
{
    if accounts.len() < 2 {
        return Err(ProcessError::NotEnoughAccountKeys);
    }
    if !accounts[0].is_signer {
        return Err(ProcessError::MissingRequiredSignature);
    }
    match find_review_address(&accounts[0].key, title.as_str().as_bytes(), program_id) {
        Some((address, _bump)) => if address != accounts[1].key {
            return Err(ProcessError::Review(MovieReviewError::InvalidPDA));
        },
        None => return Err(ProcessError::Review(MovieReviewError::InvalidPDA)),
    }
    if read_review(&accounts[1].data).is_none() {
        return Err(ProcessError::Review(MovieReviewError::UninitializedAccount));
    }
    let empty: Vec<u8> = Vec::new();
    overwrite(&mut accounts[1].data, &empty);
    assert(account_views(accounts@) =~= account_views(old(accounts)@).update(
        1,
        with_data(old(accounts)@[1]@, Seq::new(old(accounts)@[1].data@.len(), |i: int| 0u8)),
    ));
    Ok(())
}


/// The outcome of an instruction: the action for the host with the new
/// account table, or the error.
pub open spec fn process_result(
    program: Seq<u8>,
    accounts: Seq<AccountView>,
    data: Seq<u8>,
) -> Result<Seq<AccountView>, ProcessError> {
    match decode_instruction(data) {
        None => Err(ProcessError::InvalidInstructionData),
        Some(InstructionView::Add { title, rating, review }) => match add_checks(program, accounts, title, rating, review) {
            Ok(_) => Ok(accounts),
            Err(e) => Err(e),
        },
        Some(InstructionView::Update { title, rating, review }) => update_result(program, accounts, title, rating, review),
        Some(InstructionView::Delete { title }) => delete_result(program, accounts, title),
    }
}

/// Decodes an instruction and carries it out. An update or a delete is
/// complete on return; an add returns the slot that the host must create
/// before `complete_add_movie_review` writes the review.
pub fn process_instruction(
    program_id: &Address,
    accounts: &mut Vec<Account>,
    instruction_data: &[u8],
) -> (r: Result<Action, ProcessError>)
    ensures
        applied(
            process_result(program_id@, account_views(old(accounts)@), instruction_data@),
            account_views(old(accounts)@),
            account_views(final(accounts)@),
            match r {
                Ok(_) => Ok(()),
                Err(e) => Err(e),
            },
        ),
        match decode_instruction(instruction_data@) {
            Some(InstructionView::Add { title, rating, review }) => match add_checks(
                program_id@,
                account_views(old(accounts)@),
                title,
                rating,
                review,
            ) {
                Ok((a, bump)) => r matches Ok(Action::CreateSlot { allocation, title: t, rating: g, review: v })
                    && allocation.address@ == a && allocation.bump == bump && allocation.space == ACCOUNT_LEN
                    && t@ == title && g == rating && v@ == review,
                Err(_) => r is Err,
            },
            Some(_) => r is Ok ==> r matches Ok(Action::Done),
            None => r is Err,
        },
{
    let instruction = MovieReviewInstruction::unpack(instruction_data)?;
    match instruction {
        MovieReviewInstruction::AddMovieReview { title, rating, review } => {
            let allocation = add_movie_review(program_id, accounts, &title, rating, &review)?;
            Ok(Action::CreateSlot { allocation, title, rating, review })
        },
        MovieReviewInstruction::UpdateMovieReview { title, rating, review } => {
            update_movie_review(program_id, accounts, title, rating, review)?;
            Ok(Action::Done)
        },
        MovieReviewInstruction::DeleteMovieReview { title } => {
            delete_movie_review(program_id, accounts, title)?;
            Ok(Action::Done)
        },
    }
}

} // verus!
