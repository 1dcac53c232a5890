//! An in-memory ledger: the accounts of one program, each at its derived
//! address, and the three transitions on them.

use crate::address::{
    candidate_address, derive_candidate_address, derive_participation_address,
    derive_poll_address, poll_address, Address,
};
use crate::error::TransitionError;
use crate::instructions::{
    initialize_candidate, initialize_poll_at, vote, InitializeCandidate, InitializePoll, Vote,
};
use crate::model::{AccountView, LedgerView};
use crate::state::{Candidate, ParticipationRecord, Poll};
use vstd::prelude::*;

verus! {

/// What one account holds.
enum Account {
    Poll(Poll),
    Candidate(Candidate),
    Participation(ParticipationRecord),
}

/// One account with the address at which it sits.
struct Slot {
    address: Address,
    account: Account,
}

/// The accounts of one program. No two of them share an address, and an
/// account, once created, is never removed.
pub struct Ledger {
    program_id: Address,
    slots: Vec<Slot>,
}

impl Account {
    /// What the account holds, as mathematical values.
    spec fn contents(self) -> AccountView {
        match self {
            Account::Poll(poll) => AccountView::Poll(poll@),
            Account::Candidate(candidate) => AccountView::Candidate(candidate@),
            Account::Participation(record) => AccountView::Participation(record@),
        }
    }

    /// Every counter is below `bound`.
    spec fn settled(self, bound: nat) -> bool {
        match self {
            Account::Poll(poll) => poll.candidate_amount < bound && poll.total_votes < bound,
            Account::Candidate(candidate) => candidate.candidate_votes < bound,
            Account::Participation(record) => true,
        }
    }
}

/// Slot `i` exists and sits at `address`.
spec fn sits(slots: Seq<Slot>, address: Seq<u8>, i: int) -> bool {
    0 <= i < slots.len() && slots[i].address@ == address
}

/// No two slots share an address.
spec fn distinct(slots: Seq<Slot>) -> bool {
    forall|i: int, j: int| 0 <= i < j < slots.len() ==> slots[i].address@ != slots[j].address@
}

/// Every account is settled below the number of accounts: each vote and
/// each registration that was counted also created an account.
spec fn settled(slots: Seq<Slot>) -> bool {
    forall|i: int| 0 <= i < slots.len() ==> (#[trigger] slots[i]).account.settled(slots.len())
}

/// Every account is valid.
spec fn sound(slots: Seq<Slot>) -> bool {
    forall|i: int| 0 <= i < slots.len() ==> (#[trigger] slots[i]).account.contents().valid()
}

/// The accounts by address.
spec fn accounts_of(slots: Seq<Slot>) -> Map<Seq<u8>, AccountView> {
    Map::new(
        |address: Seq<u8>| exists|i: int| sits(slots, address, i),
        |address: Seq<u8>| slots[choose|i: int| sits(slots, address, i)].account.contents(),
    )
}

proof fn lemma_slot(slots: Seq<Slot>, i: int)
    requires
        distinct(slots),
        0 <= i < slots.len(),
    ensures
        accounts_of(slots).dom().contains(slots[i].address@),
        accounts_of(slots)[slots[i].address@] == slots[i].account.contents(),
{
    let address = slots[i].address@;
    assert(sits(slots, address, i));
    let j = choose|j: int| sits(slots, address, j);
    assert(sits(slots, address, j));
    if i < j {
        assert(slots[i].address@ != slots[j].address@);
    } else if j < i {
        assert(slots[j].address@ != slots[i].address@);
    }
}

proof fn lemma_valid(program_id: Seq<u8>, slots: Seq<Slot>)
    requires
        distinct(slots),
        sound(slots),
    ensures
        (LedgerView { program_id, accounts: accounts_of(slots) }).valid(),
{
    let ledger = LedgerView { program_id, accounts: accounts_of(slots) };
    assert forall|address: Seq<u8>| #[trigger] ledger.occupied(address) implies ledger.accounts[address]
        .valid() by {
        let i = choose|i: int| sits(slots, address, i);
        lemma_slot(slots, i);
    }
}

proof fn lemma_push(slots: Seq<Slot>, slot: Slot)
    requires
        distinct(slots),
        !accounts_of(slots).dom().contains(slot.address@),
    ensures
        distinct(slots.push(slot)),
        accounts_of(slots.push(slot)) == accounts_of(slots).insert(slot.address@, slot.account.contents()),
{
    let grown = slots.push(slot);
    let last = slots.len() as int;
    assert forall|i: int, j: int| 0 <= i < j < grown.len() implies grown[i].address@
        != grown[j].address@ by {
        if j == last {
            assert(sits(slots, slots[i].address@, i));
        }
    }
    assert forall|address: Seq<u8>|
        accounts_of(grown).dom().contains(address) <==> accounts_of(slots).insert(
            slot.address@,
            slot.account.contents(),
        ).dom().contains(address) by {
        if accounts_of(grown).dom().contains(address) {
            let i = choose|i: int| sits(grown, address, i);
            if i < last {
                assert(sits(slots, address, i));
            }
        }
        if accounts_of(slots).dom().contains(address) {
            let i = choose|i: int| sits(slots, address, i);
            assert(sits(grown, address, i));
        }
        if address == slot.address@ {
            assert(sits(grown, address, last));
        }
    }
    assert forall|address: Seq<u8>| accounts_of(grown).dom().contains(address) implies accounts_of(
        grown,
    )[address] == accounts_of(slots).insert(slot.address@, slot.account.contents())[address] by {
        let i = choose|i: int| sits(grown, address, i);
        lemma_slot(grown, i);
        if i < last {
            assert(sits(slots, address, i));
            lemma_slot(slots, i);
        }
    }
    assert(accounts_of(grown) =~= accounts_of(slots).insert(slot.address@, slot.account.contents()));
}

proof fn lemma_put(slots: Seq<Slot>, i: int, slot: Slot)
    requires
        distinct(slots),
        0 <= i < slots.len(),
        slot.address@ == slots[i].address@,
    ensures
        distinct(slots.update(i, slot)),
        accounts_of(slots.update(i, slot)) == accounts_of(slots).insert(
            slot.address@,
            slot.account.contents(),
        ),
{
    let changed = slots.update(i, slot);
    assert forall|a: int, b: int| 0 <= a < b < changed.len() implies changed[a].address@
        != changed[b].address@ by {
        assert(slots[a].address@ != slots[b].address@);
    }
    assert forall|address: Seq<u8>|
        accounts_of(changed).dom().contains(address) <==> accounts_of(slots).insert(
            slot.address@,
            slot.account.contents(),
        ).dom().contains(address) by {
        if accounts_of(changed).dom().contains(address) {
            let k = choose|k: int| sits(changed, address, k);
            assert(sits(slots, address, k));
        }
        if accounts_of(slots).dom().contains(address) {
            let k = choose|k: int| sits(slots, address, k);
            assert(sits(changed, address, k));
        }
        if address == slot.address@ {
            assert(sits(changed, address, i));
        }
    }
    assert forall|address: Seq<u8>| accounts_of(changed).dom().contains(address) implies accounts_of(
        changed,
    )[address] == accounts_of(slots).insert(slot.address@, slot.account.contents())[address] by {
        let k = choose|k: int| sits(changed, address, k);
        lemma_slot(changed, k);
        lemma_slot(slots, k);
    }
    assert(accounts_of(changed) =~= accounts_of(slots).insert(slot.address@, slot.account.contents()));
}

/// The slot at `address`, if there is one.
fn position(slots: &Vec<Slot>, address: &Address) -> (found: Option<usize>)
    ensures
        match found {
            Some(i) => sits(slots@, address@, i as int),
            None => !accounts_of(slots@).dom().contains(address@),
        },
{
    let mut i: usize = 0;
    while i < slots.len()
        invariant
            i <= slots.len(),
            forall|j: int| 0 <= j < i ==> !sits(slots@, address@, j),
        decreases slots.len() - i,
    {
        if slots[i].address.same_as(address) {
            return Some(i);
        }
        i += 1;
    }
    None
}

impl View for Ledger {
    type V = LedgerView;

    closed spec fn view(&self) -> LedgerView {
        LedgerView { program_id: self.program_id@, accounts: accounts_of(self.slots@) }
    }
}

impl Ledger {
    #[verifier::type_invariant]
    spec fn well_formed(self) -> bool {
        distinct(self.slots@) && settled(self.slots@) && sound(self.slots@)
    }

    /// The ledger of the program `program_id`, with no accounts yet.
    pub fn new(program_id: Address) -> (ledger: Ledger)
        ensures
            ledger@ == LedgerView::empty(program_id@),
            ledger@.valid(),
    {
        let ledger = Ledger { program_id, slots: Vec::new() };
        assert(ledger@.accounts =~= Map::<Seq<u8>, AccountView>::empty());
        ledger
    }

    /// The program whose accounts these are.
    pub fn program_id(&self) -> (program_id: Address)
        ensures
            program_id@ == self@.program_id,
            self@.valid(),
    {
        proof {
            use_type_invariant(self);
            lemma_valid(self.program_id@, self.slots@);
        }
        self.program_id
    }

    /// The poll `poll_id` with its slot, if it was created.
    fn load_poll(&self, poll_id: u64) -> (found: Option<(usize, Poll)>)
        ensures
            match found {
                Some((i, poll)) => {
                    &&& i < self.slots.len()
                    &&& self.slots[i as int].account == Account::Poll(poll)
                    &&& poll_address(self@.program_id, poll_id) == Some(self.slots[i as int].address@)
                    &&& self@.poll(poll_id) == Some(poll@)
                },
                None => self@.poll(poll_id) is None,
            },
    {
        proof {
            use_type_invariant(self);
        }
        let address = match derive_poll_address(&self.program_id, poll_id) {
            Some(address) => address,
            None => return None,
        };
        match position(&self.slots, &address) {
            Some(i) => {
                proof {
                    lemma_slot(self.slots@, i as int);
                }
                match &self.slots[i].account {
                    Account::Poll(poll) => Some((i, poll.clone())),
                    _ => None,
                }
            },
            None => None,
        }
    }

    /// The candidate `candidate_name` of the poll `poll_id` with its slot, if
    /// it was registered.
    fn load_candidate(&self, poll_id: u64, candidate_name: &str) -> (found: Option<
        (usize, Candidate),
    >)
        ensures
            match found {
                Some((i, candidate)) => {
                    &&& i < self.slots.len()
                    &&& self.slots[i as int].account == Account::Candidate(candidate)
                    &&& candidate_address(self@.program_id, poll_id, candidate_name@) == Some(
                        self.slots[i as int].address@,
                    )
                    &&& self@.candidate(poll_id, candidate_name@) == Some(candidate@)
                },
                None => self@.candidate(poll_id, candidate_name@) is None,
            },
    {
        proof {
            use_type_invariant(self);
        }
        let address = match derive_candidate_address(&self.program_id, poll_id, candidate_name) {
            Some(address) => address,
            None => return None,
        };
        match position(&self.slots, &address) {
            Some(i) => {
                proof {
                    lemma_slot(self.slots@, i as int);
                }
                match &self.slots[i].account {
                    Account::Candidate(candidate) => Some((i, candidate.clone())),
                    _ => None,
                }
            },
            None => None,
        }
    }

    /// The poll `poll_id`, if it was created. Its start is not after its
    /// end, and its description fits.
    pub fn poll(&self, poll_id: u64) -> (found: Option<Poll>)
        ensures
            match found {
                Some(poll) => self@.poll(poll_id) == Some(poll@) && poll@.valid(),
                None => self@.poll(poll_id) is None,
            },
            self@.valid(),
    {
        proof {
            use_type_invariant(self);
            lemma_valid(self.program_id@, self.slots@);
        }
        match self.load_poll(poll_id) {
            Some((_, poll)) => Some(poll),
            None => None,
        }
    }

    /// The candidate `candidate_name` of the poll `poll_id`, if it was
    /// registered. Its name fits.
    pub fn candidate(&self, poll_id: u64, candidate_name: &str) -> (found: Option<Candidate>)
        ensures
            match found {
                Some(candidate) => self@.candidate(poll_id, candidate_name@) == Some(candidate@)
                    && candidate@.fits(),
                None => self@.candidate(poll_id, candidate_name@) is None,
            },
            self@.valid(),
    {
        proof {
            use_type_invariant(self);
            lemma_valid(self.program_id@, self.slots@);
        }
        match self.load_candidate(poll_id, candidate_name) {
            Some((_, candidate)) => Some(candidate),
            None => None,
        }
    }

    /// The participation record of `voter` in the poll `poll_id`, if `voter`
    /// has one. A record that is stored shows participation.
    pub fn participation(&self, poll_id: u64, voter: &Address) -> (found: Option<
        ParticipationRecord,
    >)
        ensures
            match found {
                Some(record) => self@.participation(poll_id, voter@) == Some(record@)
                    && record.has_participated,
                None => self@.participation(poll_id, voter@) is None,
            },
            self@.valid(),
    {
        proof {
            use_type_invariant(self);
            lemma_valid(self.program_id@, self.slots@);
        }
        let address = match derive_participation_address(&self.program_id, poll_id, voter) {
            Some(address) => address,
            None => return None,
        };
        match position(&self.slots, &address) {
            Some(i) => {
                proof {
                    lemma_slot(self.slots@, i as int);
                }
                match &self.slots[i].account {
                    Account::Participation(record) => Some(*record),
                    _ => None,
                }
            },
            None => None,
        }
    }

    /// CreatePoll at time `now`, paid for by `signer`.
    pub fn create_poll(
        &mut self,
        signer: Address,
        now: u64,
        poll_id: u64,
        description: String,
        poll_start: u64,
        poll_end: u64,
    ) -> (outcome: Result<(), TransitionError>)
        ensures
            old(self)@.committed(
                old(self)@.create_poll(
                    now as nat,
                    poll_id,
                    description@,
                    poll_start as nat,
                    poll_end as nat,
                ),
                final(self)@,
                outcome,
            ),
            final(self)@.valid(),
    {
        proof {
            use_type_invariant(&*self);
            lemma_valid(self.program_id@, self.slots@);
        }
        let mut ctx = InitializePoll { signer, poll: Poll::default() };
        match initialize_poll_at(&mut ctx, now, poll_id, description, poll_start, poll_end) {
            Err(error) => return Err(error),
            Ok(_) => {},
        }
        let address = match derive_poll_address(&self.program_id, poll_id) {
            Some(address) => address,
            None => return Err(TransitionError::InvalidSeeds),
        };
        if position(&self.slots, &address).is_some() {
            return Err(TransitionError::AccountInUse);
        }
        if !ctx.poll.fits() {
            return Err(TransitionError::AccountDidNotSerialize);
        }
        let created = Slot { address, account: Account::Poll(ctx.poll) };
        proof {
            lemma_push(self.slots@, created);
        }
        let mut slots: Vec<Slot> = Vec::new();
        std::mem::swap(&mut slots, &mut self.slots);
        slots.push(created);
        self.slots = slots;
        proof {
            use_type_invariant(&*self);
            lemma_valid(self.program_id@, self.slots@);
        }
        Ok(())
    }

    /// RegisterCandidate, paid for by `signer`.
    pub fn register_candidate(&mut self, signer: Address, poll_id: u64, candidate_name: String) -> (outcome:
        Result<(), TransitionError>)
        ensures
            old(self)@.committed(
                old(self)@.register_candidate(poll_id, candidate_name@),
                final(self)@,
                outcome,
            ),
            final(self)@.valid(),
    {
        proof {
            use_type_invariant(&*self);
            lemma_valid(self.program_id@, self.slots@);
        }
        let (poll_at, poll) = match self.load_poll(poll_id) {
            Some(loaded) => loaded,
            None => return Err(TransitionError::AccountNotFound),
        };
        let address = match derive_candidate_address(
            &self.program_id,
            poll_id,
            candidate_name.as_str(),
        ) {
            Some(address) => address,
            None => return Err(TransitionError::InvalidSeeds),
        };
        if position(&self.slots, &address).is_some() {
            return Err(TransitionError::AccountInUse);
        }
        let mut ctx = InitializeCandidate { signer, poll, candidate: Candidate::default() };
        match initialize_candidate(&mut ctx, candidate_name, poll_id) {
            Err(error) => return Err(error),
            Ok(_) => {},
        }
        let poll_key = self.slots[poll_at].address;
        let counted = Slot { address: poll_key, account: Account::Poll(ctx.poll) };
        let created = Slot { address, account: Account::Candidate(ctx.candidate) };
        proof {
            let before = self.slots@;
            lemma_slot(before, poll_at as int);
            lemma_put(before, poll_at as int, counted);
            lemma_push(before.update(poll_at as int, counted), created);
            assert(accounts_of(before.update(poll_at as int, counted).push(created)) =~= accounts_of(
                before,
            ).insert(address@, created.account.contents()).insert(poll_key@, counted.account.contents()));
        }
        let mut slots: Vec<Slot> = Vec::new();
        std::mem::swap(&mut slots, &mut self.slots);
        slots.set(poll_at, counted);
        slots.push(created);
        self.slots = slots;
        proof {
            use_type_invariant(&*self);
            lemma_valid(self.program_id@, self.slots@);
        }
        Ok(())
    }

    /// CastVote by `voter`.
    pub fn cast_vote(&mut self, voter: Address, poll_id: u64, candidate_name: String) -> (outcome:
        Result<(), TransitionError>)
        ensures
            old(self)@.committed(
                old(self)@.cast_vote(poll_id, candidate_name@, voter@),
                final(self)@,
                outcome,
            ),
            final(self)@.valid(),
    {
        proof {
            use_type_invariant(&*self);
            lemma_valid(self.program_id@, self.slots@);
        }
        let (poll_at, poll) = match self.load_poll(poll_id) {
            Some(loaded) => loaded,
            None => return Err(TransitionError::AccountNotFound),
        };
        let (candidate_at, candidate) = match self.load_candidate(
            poll_id,
            candidate_name.as_str(),
        ) {
            Some(loaded) => loaded,
            None => return Err(TransitionError::AccountNotFound),
        };
        let address = match derive_participation_address(&self.program_id, poll_id, &voter) {
            Some(address) => address,
            None => return Err(TransitionError::InvalidSeeds),
        };
        let record_at = position(&self.slots, &address);
        let participation_record = match record_at {
            Some(k) => {
                proof {
                    lemma_slot(self.slots@, k as int);
                }
                match &self.slots[k].account {
                    Account::Participation(record) => *record,
                    _ => return Err(TransitionError::AccountInUse),
                }
            },
            None => ParticipationRecord::default(),
        };
        let poll_key = self.slots[poll_at].address;
        let candidate_key = self.slots[candidate_at].address;
        let mut ctx = Vote { signer: voter, poll_key, poll, candidate, participation_record };
        match vote(&mut ctx, candidate_name, poll_id) {
            Err(error) => return Err(error),
            Ok(_) => {},
        }
        let counted = Slot { address: poll_key, account: Account::Poll(ctx.poll) };
        let chosen = Slot { address: candidate_key, account: Account::Candidate(ctx.candidate) };
        let created = Slot { address, account: Account::Participation(ctx.participation_record) };
        proof {
            let before = self.slots@;
            assert(record_at is None);
            lemma_slot(before, poll_at as int);
            lemma_slot(before, candidate_at as int);
            lemma_put(before, poll_at as int, counted);
            let first = before.update(poll_at as int, counted);
            lemma_put(first, candidate_at as int, chosen);
            let second = first.update(candidate_at as int, chosen);
            lemma_push(second, created);
            assert(accounts_of(second.push(created)) =~= accounts_of(before).insert(
                address@,
                created.account.contents(),
            ).insert(candidate_key@, chosen.account.contents()).insert(poll_key@, counted.account.contents()));
        }
        let mut slots: Vec<Slot> = Vec::new();
        std::mem::swap(&mut slots, &mut self.slots);
        slots.set(poll_at, counted);
        slots.set(candidate_at, chosen);
        slots.push(created);
        self.slots = slots;
        proof {
            use_type_invariant(&*self);
            lemma_valid(self.program_id@, self.slots@);
        }
        Ok(())
    }
}

} // verus!
