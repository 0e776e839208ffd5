use vstd::prelude::*;

verus! {

/// A 32-byte account address.
#[derive(Debug, Clone, Copy)]
pub struct Address {
    pub bytes: [u8; 32],
}

impl PartialEq for Address {
    fn eq(&self, o: &Address) -> (r: bool) {
        let mut i: usize = 0;
        while i < 32
            invariant
                i <= 32,
                forall|j: int| 0 <= j < i ==> self.bytes@[j] == o.bytes@[j],
            decreases 32 - i,
        {
            if self.bytes[i] != o.bytes[i] {
                return false;
            }
            i = i + 1;
        }
        assert(self.bytes@ =~= o.bytes@);
        true
    }
}

impl vstd::std_specs::cmp::PartialEqSpecImpl for Address {
    open spec fn obeys_eq_spec() -> bool {
        true
    }

    open spec fn eq_spec(&self, o: &Address) -> bool {
        self.bytes@ == o.bytes@
    }
}

impl View for Address {
    type V = Seq<u8>;

    open spec fn view(&self) -> Seq<u8> {
        self.bytes@
    }
}

/// The address, with its bump, that the host derives from a list of seeds and a
/// program's address, or `None` where it derives none.
pub uninterp spec fn program_address(seeds: Seq<Seq<u8>>, program: Seq<u8>) -> Option<(Seq<u8>, u8)>;

/// The seeds from which a review's slot address is derived: the author's
/// address, then the title's bytes.
pub open spec fn review_seeds(reviewer: Seq<u8>, title: Seq<u8>) -> Seq<Seq<u8>> {
    seq![reviewer, title]
}

/// Whether `slot` is the address derived from the author and the title.
pub open spec fn is_review_address(program: Seq<u8>, reviewer: Seq<u8>, title: Seq<u8>, slot: Seq<u8>) -> bool {
    match program_address(review_seeds(reviewer, title), program) {
        Some((a, _)) => a == slot,
        None => false,
    }
}

/// Relies on `Pubkey::try_find_program_address`: the address derived from the
/// seeds `[author, title]` under `program`, with its bump, or `None`. It walks
/// the bumps from 255 down, hashing seeds and program, so the result depends on
/// the arguments alone.
#[verifier::external_body]
pub(crate) fn find_review_address(reviewer: &Address, title: &[u8], program: &Address) -> (r: Option<(Address, u8)>)
    ensures
        match r {
            Some((a, b)) => program_address(review_seeds(reviewer@, title@), program@) == Some((a@, b)),
            None => program_address(review_seeds(reviewer@, title@), program@) is None,
        },
{
    let seeds: [&[u8]; 2] = [&reviewer.bytes, title];
    let program_id = solana_program::pubkey::Pubkey::new_from_array(program.bytes);
    solana_program::pubkey::Pubkey::try_find_program_address(&seeds, &program_id)
        .map(|(key, bump)| (Address { bytes: key.to_bytes() }, bump))
}

} // verus!
