use vstd::prelude::*;

verus! {

/// A 32-byte account identity, as the host ledger names accounts.
#[derive(Clone, Copy, Debug)]
pub struct Address {
    pub bytes: [u8; 32],
}

impl PartialEq for Address {
    fn eq(&self, o: &Address) -> (r: bool) {
        let mut i: usize = 0;
        while i < 32
            invariant
                i <= 32,
                forall|j: int| 0 <= j < i ==> self.bytes@[j] == o.bytes@[j],
            decreases 32 - i,
        {
            if self.bytes[i] != o.bytes[i] {
                return false;
            }
            i = i + 1;
        }
        assert(self.bytes@ =~= o.bytes@);
        true
    }
}

impl vstd::std_specs::cmp::PartialEqSpecImpl for Address {
    open spec fn obeys_eq_spec() -> bool {
        true
    }

    open spec fn eq_spec(&self, o: &Address) -> bool {
        self.bytes@ == o.bytes@
    }
}

impl Eq for Address {
}

impl Address {
    /// Whether two addresses name the same account.
    pub open spec fn same(self, o: Address) -> bool {
        self.bytes@ == o.bytes@
    }
}

/// The address that the host ledger derives for `program_id` from the seeds
/// `tag` and `creator`, if it finds one.
pub uninterp spec fn program_address_of(tag: Seq<u8>, creator: Seq<u8>, program_id: Seq<u8>) -> Option<
    Seq<u8>,
>;

/// Relies on `Pubkey::try_find_program_address` of solana-program (re-exported
/// by anchor-lang) with the seeds `[tag, creator]`: it searches the bump seeds
/// in a fixed order, so its result depends on the seeds and the program id
/// alone, and it returns `None` rather than panicking when no address is found.
#[verifier::external_body]
pub(crate) fn find_program_address(tag: &[u8], creator: &Address, program_id: &Address) -> (r:
    Option<Address>)
    ensures
        r is Some <==> program_address_of(tag@, creator.bytes@, program_id.bytes@) is Some,
        r is Some ==> Some(r->Some_0.bytes@) == program_address_of(
            tag@,
            creator.bytes@,
            program_id.bytes@,
        ),
{
    let program = anchor_lang::prelude::Pubkey::new_from_array(program_id.bytes);
    anchor_lang::prelude::Pubkey::try_find_program_address(&[tag, &creator.bytes], &program).map(
        |(key, _bump)| Address { bytes: key.to_bytes() },
    )
}

/// An account of the host ledger as an operation sees it: its address and
/// the native balance it holds.
#[derive(Clone, Copy, Debug)]
pub struct Account {
    pub key: Address,
    pub lamports: u64,
}

} // verus!
