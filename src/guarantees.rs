//! Laws that relate the checks, the writes and the record format.

use vstd::prelude::*;
use vstd::utf8::*;
use crate::address::is_review_address;
use crate::error::{MovieReviewError, ProcessError};
use crate::processor::{
    AccountView, add_checks, complete_add_result, fits_capacity, holds_review, new_review,
    stored, update_result, valid_rating,
};
use crate::state::{
    RecordView, decode_record, encode_record, encodable, lemma_decoded_encodable,
    lemma_record_round_trip, review_tag,
};

verus! {

proof fn lemma_stored_reads_back(v: RecordView, len: nat)
    requires
        encodable(v),
        encode_record(v).len() <= len,
    ensures
        decode_record(stored(v, len)) == Some((v, encode_record(v).len() as int)),
{
    lemma_record_round_trip(v, Seq::new((len - encode_record(v).len()) as nat, |i: int| 0u8));
}

/// Adding a review to a slot that holds none, at the address derived from the
/// signing author and the title, with a rating in one to five and a review
/// within capacity, passes every check; once the slot is created, writing the
/// review succeeds, and reading the slot back gives an initialized record with
/// the author, the title, the rating and the text that were given. The slot
/// must belong to the program and be long enough for the encoded record.
pub proof fn lemma_add_then_read(
    program: Seq<u8>,
    accounts: Seq<AccountView>,
    title: Seq<char>,
    rating: u8,
    review: Seq<char>,
)
    requires
        accounts.len() >= 3,
        accounts[0].is_signer,
        accounts[0].key.len() == 32,
        accounts[1].owner == program,
        is_review_address(program, accounts[0].key, encode_utf8(title), accounts[1].key),
        !holds_review(accounts[1].data),
        valid_rating(rating),
        fits_capacity(title, review),
        encode_record(new_review(accounts[0].key, title, rating, review)).len() <= accounts[1].data.len(),
    ensures
        add_checks(program, accounts, title, rating, review) is Ok,
        complete_add_result(accounts, title, rating, review) matches Ok(after) && decode_record(after[1].data) matches Some((v, _))
            && v.is_initialized && v.reviewer == accounts[0].key && v.title == title && v.rating == rating
            && v.review == review,
{
    let v = new_review(accounts[0].key, title, rating, review);
    is_ascii_chars_encode_utf8(review_tag());
    assert(encodable(v));
    lemma_stored_reads_back(v, accounts[1].data.len());
    let after = complete_add_result(accounts, title, rating, review).unwrap();
    assert(after[1].data == stored(v, accounts[1].data.len()));
}

/// Adding a review, signed, to a slot of the program whose address is not the
/// one derived from the author and the title fails with `InvalidPDA`, so no
/// slot is created.
pub proof fn lemma_add_wrong_address(
    program: Seq<u8>,
    accounts: Seq<AccountView>,
    title: Seq<char>,
    rating: u8,
    review: Seq<char>,
)
    requires
        accounts.len() >= 3,
        accounts[0].is_signer,
        accounts[1].owner == program,
        !is_review_address(program, accounts[0].key, encode_utf8(title), accounts[1].key),
    ensures
        add_checks(program, accounts, title, rating, review) == Err::<(Seq<u8>, u8), ProcessError>(
            ProcessError::Review(MovieReviewError::InvalidPDA),
        ),
{
}

/// Writing a new review into a slot that already holds one fails with
/// `AccountAlreadyInitialized` and leaves every account as it was.
pub proof fn lemma_add_to_initialized(accounts: Seq<AccountView>, title: Seq<char>, rating: u8, review: Seq<char>)
    requires
        accounts.len() >= 2,
        holds_review(accounts[1].data),
    ensures
        complete_add_result(accounts, title, rating, review) == Err::<Seq<AccountView>, ProcessError>(
            ProcessError::AccountAlreadyInitialized,
        ),
{
}

/// Updating, signed, at the derived address, a slot that holds no review
/// fails with `UninitializedAccount`.
pub proof fn lemma_update_uninitialized(
    program: Seq<u8>,
    accounts: Seq<AccountView>,
    title: Seq<char>,
    rating: u8,
    review: Seq<char>,
)
    requires
        accounts.len() >= 2,
        accounts[0].is_signer,
        is_review_address(program, accounts[0].key, encode_utf8(title), accounts[1].key),
        !holds_review(accounts[1].data),
    ensures
        update_result(program, accounts, title, rating, review) == Err::<Seq<AccountView>, ProcessError>(
            ProcessError::Review(MovieReviewError::UninitializedAccount),
        ),
{
}

/// A successful update changes the slot's rating and text and nothing else:
/// the tag, the flag, the title and the author read back as before, the
/// other accounts and the slot's address stay, so the same author and title
/// still derive the slot's address for a further update.
pub proof fn lemma_update_keeps_identity(
    program: Seq<u8>,
    accounts: Seq<AccountView>,
    title: Seq<char>,
    rating: u8,
    review: Seq<char>,
)
    requires
        update_result(program, accounts, title, rating, review) is Ok,
    ensures
        update_result(program, accounts, title, rating, review) matches Ok(after) && decode_record(accounts[1].data) matches Some((
            old,
            _,
        )) && decode_record(after[1].data) matches Some((new, _)) && new == (RecordView { rating, review, ..old })
            && new.title == old.title && new.reviewer == old.reviewer && after.len() == accounts.len() && after[0]
            == accounts[0] && after[1].key == accounts[1].key && after[1].data.len() == accounts[1].data.len()
            && is_review_address(program, after[0].key, encode_utf8(title), after[1].key),
{
    let old = decode_record(accounts[1].data).unwrap().0;
    let new = RecordView { rating, review, ..old };
    lemma_decoded_encodable(accounts[1].data);
    assert(encodable(new));
    lemma_stored_reads_back(new, accounts[1].data.len());
}

/// A request that the author did not sign, with the accounts that it needs
/// (three for an add, two for an update), fails with
/// `MissingRequiredSignature`, whatever else is wrong with it: the signature
/// is checked before the owner, the address, the slot, the rating and the size.
pub proof fn lemma_unsigned_rejected_first(
    program: Seq<u8>,
    accounts: Seq<AccountView>,
    title: Seq<char>,
    rating: u8,
    review: Seq<char>,
)
    requires
        accounts.len() >= 2,
        !accounts[0].is_signer,
    ensures
        accounts.len() >= 3 ==> add_checks(program, accounts, title, rating, review) == Err::<(Seq<u8>, u8), ProcessError>(
            ProcessError::MissingRequiredSignature,
        ),
        update_result(program, accounts, title, rating, review) == Err::<Seq<AccountView>, ProcessError>(
            ProcessError::MissingRequiredSignature,
        ),
{
}

} // verus!
