//! What the contract sees of its host, as plain values, and what it asks of it.
//!
//! A call of the contract reads an [`Env`]: the contract's own address, the
//! ledger time and the persistent entries. Whatever it wants done outside
//! (authorization, storage, token transfers, events) it appends to
//! [`Env::calls`] in the order in which the host has to do it.
use crate::events::{Event, EventView};
use crate::types::{
    same_bytes, Address, DataKey, DataKeyView, EscrowRecord, EscrowRecordView,
};
use vstd::prelude::*;

verus! {

/// One thing that the contract asks of its host.
#[derive(Debug)]
pub enum HostCall {
    /// Fail the invocation unless `address` has authorized it.
    RequireAuth { address: Address },
    /// Store the address of the admin under [`DataKey::Admin`].
    SetAdmin { admin: Address },
    /// Store the record under [`DataKey::Escrow`] of the ID.
    SetEscrow { escrow_id: Vec<u8>, record: EscrowRecord },
    /// Let the persistent entry live for `extend_to` ledgers, if it has fewer
    /// than `threshold` left.
    ExtendTtl { key: DataKey, threshold: u32, extend_to: u32 },
    /// Move `amount` of the token from one address to another.
    Transfer { token: Address, from: Address, to: Address, amount: i128 },
    /// Publish the event under its topics.
    Publish { event: Event },
}

/// View of [`HostCall`].
pub enum HostCallView {
    RequireAuth { address: Seq<u8> },
    SetAdmin { admin: Seq<u8> },
    SetEscrow { escrow_id: Seq<u8>, record: EscrowRecordView },
    ExtendTtl { key: DataKeyView, threshold: u32, extend_to: u32 },
    Transfer { token: Seq<u8>, from: Seq<u8>, to: Seq<u8>, amount: i128 },
    Publish { event: EventView },
}

impl View for HostCall {
    type V = HostCallView;

    open spec fn view(&self) -> HostCallView {
        match self {
            HostCall::RequireAuth { address } => HostCallView::RequireAuth { address: address@ },
            HostCall::SetAdmin { admin } => HostCallView::SetAdmin { admin: admin@ },
            HostCall::SetEscrow { escrow_id, record } => HostCallView::SetEscrow {
                escrow_id: escrow_id@,
                record: record@,
            },
            HostCall::ExtendTtl { key, threshold, extend_to } => HostCallView::ExtendTtl {
                key: key@,
                threshold: *threshold,
                extend_to: *extend_to,
            },
            HostCall::Transfer { token, from, to, amount } => HostCallView::Transfer {
                token: token@,
                from: from@,
                to: to@,
                amount: *amount,
            },
            HostCall::Publish { event } => HostCallView::Publish { event: event@ },
        }
    }
}

/// The persistent entries of the contract: the admin and one record per
/// escrow ID.
pub struct Storage {
    admin: Option<Address>,
    escrows: Vec<(Vec<u8>, EscrowRecord)>,
}

/// View of [`Storage`].
#[verifier::ext_equal]
pub struct StorageView {
    pub admin: Option<Seq<u8>>,
    pub escrows: Map<Seq<u8>, EscrowRecordView>,
}

/// Whether the entries hold a record under the ID at this position.
spec fn entry_at(entries: Seq<(Vec<u8>, EscrowRecord)>, escrow_id: Seq<u8>, i: int) -> bool {
    0 <= i < entries.len() && entries[i].0@ == escrow_id
}

/// No ID occurs twice.
spec fn distinct_ids(entries: Seq<(Vec<u8>, EscrowRecord)>) -> bool {
    forall|escrow_id: Seq<u8>, i: int, j: int| #[trigger]
        entry_at(entries, escrow_id, i) && #[trigger] entry_at(entries, escrow_id, j) ==> i == j
}

/// The entries as a map from IDs to records.
spec fn entries_map(entries: Seq<(Vec<u8>, EscrowRecord)>) -> Map<Seq<u8>, EscrowRecordView> {
    Map::new(
        |escrow_id: Seq<u8>| exists|i: int| entry_at(entries, escrow_id, i),
        |escrow_id: Seq<u8>| entries[choose|i: int| entry_at(entries, escrow_id, i)].1@,
    )
}

/// An entry put over the one with its ID, or behind all others where its ID
/// is new, is an insertion into the map.
proof fn lemma_put_entry(
    before: Seq<(Vec<u8>, EscrowRecord)>,
    after: Seq<(Vec<u8>, EscrowRecord)>,
    i: int,
)
    requires
        distinct_ids(before),
        0 <= i <= before.len(),
        0 <= i < after.len(),
        i < before.len() ==> after == before.update(i, after[i]) && before[i].0@ == after[i].0@,
        i == before.len() ==> after == before.push(after[i]) && !entries_map(
            before,
        ).contains_key(after[i].0@),
    ensures
        distinct_ids(after),
        entries_map(after) == entries_map(before).insert(after[i].0@, after[i].1@),
{
    let id = after[i].0@;
    assert forall|other: Seq<u8>, j: int| #[trigger]
        entry_at(after, other, j) implies (entry_at(before, other, j) || (j == i && other
        == id)) by {}
    assert forall|other: Seq<u8>, j: int| #[trigger]
        entry_at(before, other, j) implies entry_at(after, other, j) && (other == id ==> j == i
        && i < before.len()) by {
        assert(after[j].0@ == other);
        if other == id {
            assert(entries_map(before).contains_key(id));
            assert(entry_at(before, id, i));
        }
    }
    assert(entry_at(after, id, i));
    let inserted = entries_map(before).insert(id, after[i].1@);
    assert forall|other: Seq<u8>| entries_map(after).contains_key(other) implies #[trigger] entries_map(
        after,
    )[other] == inserted[other] by {
        let j = choose|j: int| entry_at(after, other, j);
        if other != id {
            let k = choose|k: int| entry_at(before, other, k);
            assert(entry_at(before, other, j));
            assert(entry_at(before, other, k));
        }
    }
    assert(entries_map(after) =~= inserted);
}

impl View for Storage {
    type V = StorageView;

    closed spec fn view(&self) -> StorageView {
        StorageView {
            admin: match self.admin {
                Some(admin) => Some(admin@),
                None => None,
            },
            escrows: entries_map(self.escrows@),
        }
    }
}

impl Storage {
    #[verifier::type_invariant]
    spec fn valid(self) -> bool {
        distinct_ids(self.escrows@)
    }

    /// Storage without any entry.
    pub fn new() -> (storage: Self)
        ensures
            storage@ == (StorageView { admin: None, escrows: Map::empty() }),
    {
        let storage = Storage { admin: None, escrows: Vec::new() };
        assert(storage@.escrows =~= Map::empty());
        storage
    }

    /// Where the entry with this ID is.
    fn position(&self, escrow_id: &Vec<u8>) -> (position: Option<usize>)
        ensures
            match position {
                Some(i) => {
                    &&& entry_at(self.escrows@, escrow_id@, i as int)
                    &&& self@.escrows.contains_key(escrow_id@)
                    &&& self@.escrows[escrow_id@] == self.escrows@[i as int].1@
                },
                None => {
                    &&& !self@.escrows.contains_key(escrow_id@)
                    &&& forall|i: int| !entry_at(self.escrows@, escrow_id@, i)
                },
            },
    {
        proof {
            use_type_invariant(self);
        }
        let mut i: usize = 0;
        while i < self.escrows.len()
            invariant
                i <= self.escrows.len(),
                distinct_ids(self.escrows@),
                forall|j: int| j < i ==> !entry_at(self.escrows@, escrow_id@, j),
            decreases self.escrows.len() - i,
        {
            if same_bytes(&self.escrows[i].0, escrow_id) {
                assert(entry_at(self.escrows@, escrow_id@, i as int));
                return Some(i);
            }
            i += 1;
        }
        None
    }

    /// The admin, if one is stored.
    pub fn get_admin(&self) -> (admin: Option<Address>)
        ensures
            match admin {
                Some(admin) => self@.admin == Some(admin@),
                None => self@.admin is None,
            },
    {
        match &self.admin {
            Some(admin) => Some(admin.clone()),
            None => None,
        }
    }

    /// The record of the escrow with this ID, if one is stored.
    pub fn get_escrow(&self, escrow_id: &Vec<u8>) -> (record: Option<EscrowRecord>)
        ensures
            match record {
                Some(record) => {
                    &&& self@.escrows.contains_key(escrow_id@)
                    &&& self@.escrows[escrow_id@] == record@
                },
                None => !self@.escrows.contains_key(escrow_id@),
            },
    {
        match self.position(escrow_id) {
            Some(i) => Some(self.escrows[i].1.clone()),
            None => None,
        }
    }

    /// Whether an entry is stored under the key.
    pub fn has(&self, key: &DataKey) -> (found: bool)
        ensures
            found == match key@ {
                DataKeyView::Escrow(escrow_id) => self@.escrows.contains_key(escrow_id),
                DataKeyView::Admin => self@.admin is Some,
            },
    {
        match key {
            DataKey::Escrow(escrow_id) => self.position(escrow_id).is_some(),
            DataKey::Admin => self.admin.is_some(),
        }
    }

    /// Stores the admin, in place of the one stored before.
    pub fn set_admin(&mut self, admin: Address)
        ensures
            final(self)@ == (StorageView { admin: Some(admin@), ..old(self)@ }),
    {
        proof {
            use_type_invariant(&*self);
        }
        self.admin = Some(admin);
    }

    /// Stores the record under the ID, in place of the one stored before.
    pub fn set_escrow(&mut self, escrow_id: Vec<u8>, record: EscrowRecord)
        ensures
            final(self)@ == (StorageView {
                escrows: old(self)@.escrows.insert(escrow_id@, record@),
                ..old(self)@
            }),
    {
        proof {
            use_type_invariant(&*self);
        }
        let position = self.position(&escrow_id);
        let ghost before = self.escrows@;
        let mut entries: Vec<(Vec<u8>, EscrowRecord)> = Vec::new();
        std::mem::swap(&mut entries, &mut self.escrows);
        match position {
            Some(i) => {
                entries.set(i, (escrow_id, record));
                proof {
                    lemma_put_entry(before, entries@, i as int);
                }
            },
            None => {
                entries.push((escrow_id, record));
                proof {
                    lemma_put_entry(before, entries@, before.len() as int);
                }
            },
        }
        self.escrows = entries;
    }
}

/// What a call of the contract works on.
pub struct Env {
    /// The address of the contract itself, which holds the locked funds.
    pub contract: Address,
    /// The ledger time, as a Unix timestamp.
    pub timestamp: u64,
    /// The persistent entries of the contract.
    pub storage: Storage,
    /// What has been asked of the host so far, oldest first.
    pub calls: Vec<HostCall>,
}

/// View of [`Env`].
#[verifier::ext_equal]
pub struct EnvView {
    pub contract: Seq<u8>,
    pub timestamp: u64,
    pub admin: Option<Seq<u8>>,
    pub escrows: Map<Seq<u8>, EscrowRecordView>,
    pub calls: Seq<HostCallView>,
}

impl View for Env {
    type V = EnvView;

    open spec fn view(&self) -> EnvView {
        EnvView {
            contract: self.contract@,
            timestamp: self.timestamp,
            admin: self.storage@.admin,
            escrows: self.storage@.escrows,
            calls: self.calls@.map_values(|call: HostCall| call@),
        }
    }
}

impl EnvView {
    /// A contract without entries that has asked for nothing yet.
    pub open spec fn new(contract: Seq<u8>, timestamp: u64) -> Self {
        EnvView {
            contract,
            timestamp,
            admin: None,
            escrows: Map::empty(),
            calls: Seq::empty(),
        }
    }

    /// Having asked the host for one thing more.
    pub open spec fn ask(self, call: HostCallView) -> Self {
        EnvView { calls: self.calls.push(call), ..self }
    }
}

impl Env {
    /// A contract without entries that has asked for nothing yet.
    pub fn new(contract: Address, timestamp: u64) -> (env: Self)
        ensures
            env@ == EnvView::new(contract@, timestamp),
    {
        let env = Env { contract, timestamp, storage: Storage::new(), calls: Vec::new() };
        assert(env@.calls =~= Seq::empty());
        env
    }

    /// Asks the host for one thing more.
    pub(crate) fn ask(&mut self, call: HostCall)
        ensures
            final(self)@ == old(self)@.ask(call@),
    {
        let ghost before = self.calls@;
        self.calls.push(call);
        proof {
            assert(self.calls@.map_values(|call: HostCall| call@) =~= before.map_values(
                |call: HostCall| call@,
            ).push(call@));
        }
    }
}

} // verus!
