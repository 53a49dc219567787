use crate::identity::Identity;
use vstd::prelude::*;

verus! {

/// The record has been created and waits for funding.
pub const UNINITIALIZED: u8 = 0;

/// A renter has committed an amount.
pub const FUNDED: u8 = 1;

/// The committed amount goes to the provider. Terminal.
pub const RELEASED: u8 = 2;

/// The committed amount goes back to the renter. Terminal.
pub const REFUNDED: u8 = 3;

/// One provider's escrow agreement.
#[derive(Clone, Copy, Debug, PartialEq, Eq)]
pub struct Escrow {
    pub provider: Identity,
    /// The provider itself until the record is funded.
    pub renter: Identity,
    /// Zero until the record is funded.
    pub amount: u64,
    /// One of `UNINITIALIZED`, `FUNDED`, `RELEASED`, `REFUNDED`.
    pub state: u8,
    /// When the record was created, in seconds since the Unix epoch.
    pub timestamp: i64,
}

/// What a well-formed map of records satisfies: each record sits under its
/// own provider's key and its state is one of the four known ones.
pub open spec fn records_wf(m: Map<Seq<u8>, Escrow>) -> bool {
    forall|k: Seq<u8>| #[trigger] m.contains_key(k) ==> m[k].provider@ == k && m[k].state <= REFUNDED
}

/// All records, at most one per provider.
pub struct EscrowStore {
    program_id: Identity,
    records: Vec<Escrow>,
    index: Ghost<Map<Seq<u8>, Escrow>>,
}

impl View for EscrowStore {
    type V = Map<Seq<u8>, Escrow>;

    closed spec fn view(&self) -> Map<Seq<u8>, Escrow> {
        self.index@
    }
}

impl EscrowStore {
    /// The program under which the records' addresses are derived.
    pub closed spec fn program(&self) -> Identity {
        self.program_id
    }

    pub closed spec fn wf(&self) -> bool {
        &&& records_wf(self.index@)
        &&& forall|i: int|
            0 <= i < self.records@.len() ==> {
                &&& #[trigger] self.index@.contains_key(self.records@[i].provider@)
                &&& self.index@[self.records@[i].provider@] == self.records@[i]
            }
        &&& forall|k: Seq<u8>|
            #[trigger] self.index@.contains_key(k) ==> exists|i: int|
                0 <= i < self.records@.len() && #[trigger] self.records@[i].provider@ == k
        &&& forall|i: int, j: int|
            0 <= i < self.records@.len() && 0 <= j < self.records@.len() && i != j
                ==> #[trigger] self.records@[i].provider@ != #[trigger] self.records@[j].provider@
    }

    /// Every record of a well-formed store sits under its provider's key and
    /// has one of the four states.
    pub proof fn lemma_records_wf(&self)
        requires
            self.wf(),
        ensures
            records_wf(self@),
    {
    }

    /// An empty store whose addresses are derived under `program_id`.
    pub fn new(program_id: Identity) -> (r: EscrowStore)
        ensures
            r.wf(),
            r@ == Map::<Seq<u8>, Escrow>::empty(),
            r.program() == program_id,
    {
        EscrowStore { program_id, records: Vec::new(), index: Ghost(Map::empty()) }
    }

    pub fn program_id(&self) -> (r: Identity)
        ensures
            r == self.program(),
    {
        self.program_id
    }

    /// The number of records.
    pub fn len(&self) -> (r: usize)
        requires
            self.wf(),
        ensures
            r == self@.len(),
    {
        proof { self.lemma_len(); }
        self.records.len()
    }

    proof fn lemma_len(&self)
        requires
            self.wf(),
        ensures
            self@.len() == self.records@.len(),
            self@.dom().finite(),
    {
        let keys = self.records@.map_values(|e: Escrow| e.provider@);
        assert(keys.no_duplicates()) by {
            assert forall|i: int, j: int|
                0 <= i < keys.len() && 0 <= j < keys.len() && i != j implies keys[i] != keys[j] by {
                assert(self.records@[i].provider@ != self.records@[j].provider@);
            }
        }
        assert(self@.dom() =~= keys.to_set()) by {
            assert forall|k: Seq<u8>| self@.dom().contains(k) implies keys.to_set().contains(k) by {
                let i = choose|i: int| 0 <= i < self.records@.len() && #[trigger] self.records@[i].provider@ == k;
                assert(keys[i] == k);
            }
            assert forall|k: Seq<u8>| keys.to_set().contains(k) implies self@.dom().contains(k) by {
                let i = choose|i: int| 0 <= i < keys.len() && keys[i] == k;
                assert(self.index@.contains_key(self.records@[i].provider@));
            }
        }
        keys.unique_seq_to_set();
    }

    /// The position of the record of `provider`, if there is one.
    fn position(&self, provider: &Identity) -> (r: Option<usize>)
        requires
            self.wf(),
        ensures
            match r {
                Some(i) => i < self.records@.len() && self.records@[i as int].provider@ == provider@,
                None => !self@.contains_key(provider@),
            },
    {
        let mut i: usize = 0;
        while i < self.records.len()
            invariant
                i <= self.records@.len(),
                forall|j: int| 0 <= j < i ==> self.records@[j].provider@ != provider@,
            decreases self.records@.len() - i,
        {
            if self.records[i].provider.same_as(provider) {
                return Some(i);
            }
            i = i + 1;
        }
        proof {
            if self@.contains_key(provider@) {
                let j = choose|j: int| 0 <= j < self.records@.len() && #[trigger] self.records@[j].provider@ == provider@;
                assert(self.records@[j].provider@ == provider@);
            }
        }
        None
    }

    /// The record of `provider`, if there is one.
    pub fn get(&self, provider: &Identity) -> (r: Option<Escrow>)
        requires
            self.wf(),
        ensures
            r == (if self@.contains_key(provider@) { Some(self@[provider@]) } else { None }),
            records_wf(self@),
    {
        match self.position(provider) {
            Some(i) => Some(self.records[i]),
            None => None,
        }
    }

    /// Adds a record for a provider that has none yet.
    pub(crate) fn insert(&mut self, record: Escrow)
        requires
            old(self).wf(),
            !old(self)@.contains_key(record.provider@),
            record.state <= REFUNDED,
        ensures
            final(self).wf(),
            final(self)@ == old(self)@.insert(record.provider@, record),
            final(self).program() == old(self).program(),
    {
        let ghost old_records = self.records@;
        self.records.push(record);
        self.index = Ghost(self.index@.insert(record.provider@, record));
        proof {
            let n = old_records.len() as int;
            assert forall|i: int| 0 <= i < self.records@.len() implies {
                &&& #[trigger] self.index@.contains_key(self.records@[i].provider@)
                &&& self.index@[self.records@[i].provider@] == self.records@[i]
            } by {
                if i < n {
                    assert(self.records@[i] == old_records[i]);
                    assert(old(self).index@.contains_key(old_records[i].provider@));
                }
            }
            assert forall|k: Seq<u8>| #[trigger] self.index@.contains_key(k) implies exists|i: int|
                0 <= i < self.records@.len() && #[trigger] self.records@[i].provider@ == k by {
                if k == record.provider@ {
                    assert(self.records@[n].provider@ == k);
                } else {
                    let i = choose|i: int| 0 <= i < old_records.len() && #[trigger] old_records[i].provider@ == k;
                    assert(self.records@[i].provider@ == k);
                }
            }
            assert forall|i: int, j: int|
                0 <= i < self.records@.len() && 0 <= j < self.records@.len() && i != j
                implies #[trigger] self.records@[i].provider@ != #[trigger] self.records@[j].provider@ by {
                if i < n && j < n {
                    assert(old_records[i].provider@ != old_records[j].provider@);
                } else if i < n {
                    assert(old(self).index@.contains_key(old_records[i].provider@));
                } else if j < n {
                    assert(old(self).index@.contains_key(old_records[j].provider@));
                }
            }
        }
    }

    /// Replaces the record of a provider that has one, keeping its provider.
    pub(crate) fn update(&mut self, record: Escrow)
        requires
            old(self).wf(),
            old(self)@.contains_key(record.provider@),
            record.state <= REFUNDED,
        ensures
            final(self).wf(),
            final(self)@ == old(self)@.insert(record.provider@, record),
            final(self).program() == old(self).program(),
    {
        let i = match self.position(&record.provider) {
            Some(i) => i,
            None => { return; },
        };
        let ghost old_records = self.records@;
        self.records.set(i, record);
        self.index = Ghost(self.index@.insert(record.provider@, record));
        proof {
            assert forall|j: int| 0 <= j < self.records@.len() implies {
                &&& #[trigger] self.index@.contains_key(self.records@[j].provider@)
                &&& self.index@[self.records@[j].provider@] == self.records@[j]
            } by {
                if j != i {
                    assert(self.records@[j] == old_records[j]);
                    assert(old_records[j].provider@ != old_records[i as int].provider@);
                    assert(old(self).index@.contains_key(old_records[j].provider@));
                }
            }
            assert forall|k: Seq<u8>| #[trigger] self.index@.contains_key(k) implies exists|j: int|
                0 <= j < self.records@.len() && #[trigger] self.records@[j].provider@ == k by {
                let j = choose|j: int| 0 <= j < old_records.len() && #[trigger] old_records[j].provider@ == k;
                if j == i {
                    assert(self.records@[j].provider@ == k);
                } else {
                    assert(self.records@[j].provider@ == k);
                }
            }
            assert forall|a: int, b: int|
                0 <= a < self.records@.len() && 0 <= b < self.records@.len() && a != b
                implies #[trigger] self.records@[a].provider@ != #[trigger] self.records@[b].provider@ by {
                assert(old_records[a].provider@ != old_records[b].provider@);
            }
        }
    }
}

} // verus!
